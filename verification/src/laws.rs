//! Laws of the escrow lifecycle.
//!
//! Each law is stated over the spec functions that the contracts of the
//! operations use: `Escrow::refusal`, `Escrow::after`, `Escrow::payout`,
//! `Escrow::event` and `participation`.

use vstd::prelude::*;
use crate::error::{ErrorKind, EscrowError};
use crate::escrow::{Action, Escrow, EscrowState, Transfer};
use crate::identity::Identity;
use crate::ledger::{contribution, participation, SafeHandsContract};

verus! {

/// The amount that a transfer takes out of custody.
pub open spec fn paid_out(transfer: Option<Transfer>) -> int {
    match transfer {
        Some(Transfer::Payout { token, to, amount }) => amount as int,
        _ => 0,
    }
}

/// The amount that a transfer brings into custody.
pub open spec fn paid_in(transfer: Option<Transfer>) -> int {
    match transfer {
        Some(Transfer::Lock { token, from, amount }) => amount as int,
        _ => 0,
    }
}

/// What custody holds for all the escrows together.
pub open spec fn custody(escrows: Seq<Escrow>) -> int
    decreases escrows.len(),
{
    if escrows.len() == 0 {
        0
    } else {
        custody(escrows.drop_last()) + escrows.last().held()
    }
}

/// An accepted action changes nothing but the approval flags and the state:
/// the parties, the arbiter, the token, the amount and the deadline are fixed
/// for the escrow's lifetime.
pub proof fn lemma_after_keeps_terms(e: Escrow, action: Action)
    ensures
        e.after(action).client == e.client,
        e.after(action).freelancer == e.freelancer,
        e.after(action).arbiter == e.arbiter,
        e.after(action).token == e.token,
        e.after(action).amount == e.amount,
        e.after(action).deadline == e.deadline,
{
}

/// An accepted action on a well-formed record gives a well-formed record: the
/// amount stays positive, and the state is released exactly when both parties
/// have approved.
pub proof fn lemma_after_keeps_wf(e: Escrow, action: Action)
    requires
        e.wf(),
        e.refusal(action) is None,
    ensures
        e.after(action).wf(),
{
}

/// A deposit with valid terms creates a well-formed, funded record with no
/// approval, whose amount is positive and whose deadline is at least one day
/// after the deposit; custody then holds exactly the amount that the funding
/// transfer brings in.
pub proof fn lemma_created_is_valid(
    client: Identity,
    freelancer: Identity,
    arbiter: Identity,
    token: Identity,
    amount: i128,
    deadline_days: u64,
    now: u64,
)
    requires
        Escrow::terms_refusal(amount, deadline_days, now) is None,
    ensures
        ({
            let e = Escrow::created(client, freelancer, arbiter, token, amount, deadline_days, now);
            &&& e.wf()
            &&& e.state == EscrowState::Funded
            &&& !e.approved_by_client && !e.approved_by_freelancer
            &&& e.amount > 0
            &&& e.deadline >= now + 86_400
            &&& e.held() == paid_in(Some(e.funding()))
        }),
{
}

/// Invalid terms are refused as invalid input, and only they are: a deposit
/// is refused with that kind exactly when the amount is not positive, the
/// deadline is less than a day away, or the deadline is not a representable
/// second.
pub proof fn lemma_invalid_terms(amount: i128, deadline_days: u64, now: u64)
    ensures
        amount <= 0 || deadline_days < 1 ==> Escrow::terms_refusal(amount, deadline_days, now)
            is Some,
        Escrow::terms_refusal(amount, deadline_days, now) matches Some(e) ==> e.kind_of()
            == ErrorKind::InvalidInput,
        Escrow::terms_refusal(amount, deadline_days, now) is None <==> amount > 0 && deadline_days
            >= 1 && now + deadline_days * 86_400 <= u64::MAX,
{
}

/// Approval is idempotent. After an accepted approval by `approver`, a second
/// approval by the same identity is either accepted and leaves the record as
/// it is, with no transfer and no event, or it is refused because the first
/// one released the escrow. Either way the flags and the state stay as the
/// first approval left them.
pub proof fn lemma_approve_idempotent(e: Escrow, approver: Identity, escrow_id: u64)
    requires
        e.refusal(Action::Approve { approver }) is None,
    ensures
        ({
            let action = Action::Approve { approver };
            let once = e.after(action);
            &&& once.refusal(action) is None ==> {
                &&& once.after(action) == once
                &&& once.payout(action) is None
                &&& once.event(escrow_id, action) is None
            }
            &&& once.refusal(action) matches Some(err) ==> {
                &&& err == EscrowError::NotApprovable
                &&& once.state == EscrowState::Released
            }
        }),
{
}

/// Release is the consequence of mutual approval and of nothing else. After
/// any accepted action on a well-formed record, the state is released exactly
/// when both approval flags are set, which is exactly when the action is the
/// approval that completes the pair; and exactly then the receipt holds a
/// transfer of the full amount to the freelancer.
pub proof fn lemma_release_iff_mutual_approval(e: Escrow, action: Action)
    requires
        e.wf(),
        e.refusal(action) is None,
    ensures
        ({
            let next = e.after(action);
            &&& next.state == EscrowState::Released <==> next.approved_by_client
                && next.approved_by_freelancer
            &&& next.state == EscrowState::Released <==> e.releases(action)
            &&& e.releases(action) ==> action is Approve && e.payout(action) == Some(
                Transfer::Payout { token: e.token, to: e.freelancer, amount: e.amount },
            )
            &&& action is Approve && !e.releases(action) ==> e.payout(action) is None
        }),
{
}

/// Released, cancelled and resolved are terminal: every action on such an
/// escrow is refused, so the record is never mutated again and no second
/// transfer is ever owed.
pub proof fn lemma_terminal_is_final(e: Escrow, action: Action)
    requires
        e.state.is_terminal(),
    ensures
        e.refusal(action) is Some,
{
}

/// The edges of the lifecycle. An accepted action leaves a funded escrow
/// funded, or takes it to any other state; it leaves a disputed escrow
/// disputed, or releases or resolves it. A disputed escrow is never refunded
/// by cancellation or timeout.
pub proof fn lemma_lifecycle_edges(e: Escrow, action: Action)
    requires
        e.refusal(action) is None,
    ensures
        e.state.is_open(),
        e.state == EscrowState::Disputed ==> e.after(action).state != EscrowState::Cancelled
            && e.after(action).state != EscrowState::Funded,
        action is Approve ==> e.after(action).state == e.state || e.after(action).state
            == EscrowState::Released,
        action is Cancel ==> e.state == EscrowState::Funded && e.after(action).state
            == EscrowState::Cancelled,
        action is Dispute ==> e.state == EscrowState::Funded && e.after(action).state
            == EscrowState::Disputed,
        action is Resolve ==> e.after(action).state == EscrowState::Resolved,
        action is ClaimTimeout ==> e.state == EscrowState::Funded && e.after(action).state
            == EscrowState::Cancelled,
{
}

/// An approval, once given, is never taken back.
pub proof fn lemma_approvals_never_reset(e: Escrow, action: Action)
    ensures
        e.approved_by_client ==> e.after(action).approved_by_client,
        e.approved_by_freelancer ==> e.after(action).approved_by_freelancer,
{
}

/// No value is created or lost: what custody holds for an escrow before an
/// accepted action is what it holds afterwards plus what the receipt pays
/// out, and a payout is always the full amount.
pub proof fn lemma_custody_conserved(e: Escrow, action: Action)
    requires
        e.refusal(action) is None,
    ensures
        e.held() == e.after(action).held() + paid_out(e.payout(action)),
        e.payout(action) is Some ==> paid_out(e.payout(action)) == e.amount && e.after(
            action,
        ).state.is_terminal(),
        e.payout(action) is None ==> e.after(action).state.is_open(),
{
}

/// Cancellation is accepted only from the client, only while the escrow is
/// funded, and only before the freelancer has approved. Once the freelancer
/// has approved, the client's own cancellation is refused as an invalid state
/// transition.
pub proof fn lemma_cancel_guard(e: Escrow, caller: Identity)
    ensures
        e.refusal(Action::Cancel { caller }) is None <==> e.is_client(caller) && e.state
            == EscrowState::Funded && !e.approved_by_freelancer,
        !e.is_client(caller) ==> e.refusal(Action::Cancel { caller }) == Some(
            EscrowError::CancelNotByClient,
        ),
        e.is_client(caller) && e.approved_by_freelancer ==> (e.refusal(
            Action::Cancel { caller },
        ) matches Some(err) && err.kind_of() == ErrorKind::InvalidStateTransition),
        e.refusal(Action::Cancel { caller }) is None ==> e.after(Action::Cancel { caller }).state
            == EscrowState::Cancelled && e.payout(Action::Cancel { caller }) == Some(
            Transfer::Payout { token: e.token, to: e.client, amount: e.amount },
        ),
{
}

/// A timeout claim is refused before the deadline and accepted at or after
/// it, but only while the escrow is funded; an accepted claim refunds the
/// client and cancels the escrow, after which a second claim is refused as an
/// invalid state transition.
pub proof fn lemma_claim_timeout_guard(e: Escrow, now: u64)
    ensures
        e.refusal(Action::ClaimTimeout { now }) is None <==> e.state == EscrowState::Funded && now
            >= e.deadline,
        now < e.deadline ==> e.refusal(Action::ClaimTimeout { now }) is Some,
        e.refusal(Action::ClaimTimeout { now }) matches Some(err) ==> err.kind_of()
            == ErrorKind::InvalidStateTransition,
        e.refusal(Action::ClaimTimeout { now }) is None ==> {
            let next = e.after(Action::ClaimTimeout { now });
            &&& next.state == EscrowState::Cancelled
            &&& e.payout(Action::ClaimTimeout { now }) == Some(
                Transfer::Payout { token: e.token, to: e.client, amount: e.amount },
            )
            &&& forall|later: u64| #[trigger]
                next.refusal(Action::ClaimTimeout { now: later }) == Some(
                    EscrowError::NotClaimable,
                )
        },
{
}

/// Resolution is refused for every caller but the escrow's arbiter and for
/// every winner but the client and the freelancer; an accepted resolution
/// awards the full amount to the winner and resolves the escrow.
pub proof fn lemma_resolve_guard(e: Escrow, arbiter: Identity, winner: Identity)
    ensures
        e.refusal(Action::Resolve { arbiter, winner }) is None <==> arbiter@ == e.arbiter@
            && e.state.is_open() && e.is_party(winner),
        arbiter@ != e.arbiter@ ==> e.refusal(Action::Resolve { arbiter, winner }) == Some(
            EscrowError::NotArbiter,
        ),
        !e.is_party(winner) ==> e.refusal(Action::Resolve { arbiter, winner }) is Some,
        e.refusal(Action::Resolve { arbiter, winner }) is None ==> e.after(
            Action::Resolve { arbiter, winner },
        ).state == EscrowState::Resolved && e.payout(Action::Resolve { arbiter, winner }) == Some(
            Transfer::Payout { token: e.token, to: winner, amount: e.amount },
        ),
{
}

/// An element of a concatenation is an element of one of its parts.
proof fn lemma_concat_contains(a: Seq<u64>, b: Seq<u64>, x: u64)
    ensures
        (a + b).contains(x) <==> a.contains(x) || b.contains(x),
{
    if a.contains(x) {
        let i = choose|i: int| 0 <= i < a.len() && a[i] == x;
        assert((a + b)[i] == x);
    }
    if b.contains(x) {
        let i = choose|i: int| 0 <= i < b.len() && b[i] == x;
        assert((a + b)[a.len() + i] == x);
    }
    if (a + b).contains(x) {
        let i = choose|i: int| 0 <= i < (a + b).len() && (a + b)[i] == x;
        if i < a.len() {
            assert(a[i] == x);
        } else {
            assert(b[i - a.len()] == x);
        }
    }
}

/// The index holds exactly the escrows that an identity takes part in: an
/// identifier is among the participation of `user` if and only if it is the
/// identifier of an escrow whose client or freelancer is `user`.
pub proof fn lemma_participation_members(escrows: Seq<Escrow>, user: Seq<char>)
    requires
        escrows.len() <= u64::MAX,
    ensures
        forall|id: u64| #[trigger]
            participation(escrows, user).contains(id) <==> id < escrows.len() && (
            escrows[id as int].client@ == user || escrows[id as int].freelancer@ == user),
    decreases escrows.len(),
{
    if escrows.len() > 0 {
        let rest = escrows.drop_last();
        let last_id = (escrows.len() - 1) as u64;
        let own = contribution(escrows.last(), last_id, user);
        lemma_participation_members(rest, user);
        assert forall|id: u64| #[trigger]
            participation(escrows, user).contains(id) <==> id < escrows.len() && (
            escrows[id as int].client@ == user || escrows[id as int].freelancer@
                == user) by {
            lemma_concat_contains(participation(rest, user), own, id);
            if id < rest.len() {
                assert(rest[id as int] == escrows[id as int]);
            }
            if own.contains(id) {
                let i = choose|i: int| 0 <= i < own.len() && own[i] == id;
                assert(own[i] == last_id);
            }
            if id == last_id && (escrows.last().client@ == user || escrows.last().freelancer@
                == user) {
                assert(own.len() > 0);
                assert(own[0] == last_id);
            }
        }
    } else {
        assert forall|id: u64| !(#[trigger] participation(escrows, user).contains(id)) by {}
    }
}

/// The index keeps the order of the deposits: the participation of `user` is
/// ascending and names only existing escrows. Where no escrow has one and
/// the same identity as client and as freelancer, it is strictly ascending,
/// so no identifier occurs twice.
pub proof fn lemma_participation_ordered(escrows: Seq<Escrow>, user: Seq<char>)
    requires
        escrows.len() <= u64::MAX,
    ensures
        forall|k: int|
            0 <= k < participation(escrows, user).len() ==> (#[trigger] participation(
                escrows,
                user,
            )[k]) < escrows.len(),
        forall|a: int, b: int|
            0 <= a < b < participation(escrows, user).len() ==> participation(escrows, user)[a]
                <= participation(escrows, user)[b],
        (forall|i: int|
            0 <= i < escrows.len() ==> (#[trigger] escrows[i]).client@ != escrows[i].freelancer@)
            ==> (forall|a: int, b: int|
            0 <= a < b < participation(escrows, user).len() ==> participation(escrows, user)[a]
                < participation(escrows, user)[b]),
        (forall|i: int|
            0 <= i < escrows.len() ==> (#[trigger] escrows[i]).client@ != escrows[i].freelancer@)
            ==> participation(escrows, user).no_duplicates(),
    decreases escrows.len(),
{
    if escrows.len() > 0 {
        let rest = escrows.drop_last();
        let last_id = (escrows.len() - 1) as u64;
        let own = contribution(escrows.last(), last_id, user);
        let head = participation(rest, user);
        let all = participation(escrows, user);
        lemma_participation_ordered(rest, user);
        assert(all == head + own);
        assert forall|k: int| 0 <= k < own.len() implies own[k] == last_id by {}
        assert forall|k: int| 0 <= k < all.len() implies (#[trigger] all[k]) < escrows.len() by {
            if k < head.len() {
                assert(all[k] == head[k]);
            } else {
                assert(all[k] == own[k - head.len()]);
            }
        }
        assert forall|a: int, b: int| 0 <= a < b < all.len() implies all[a] <= all[b] by {
            if b < head.len() {
                assert(all[a] == head[a] && all[b] == head[b]);
            } else if a < head.len() {
                assert(all[a] == head[a]);
                assert(all[b] == own[b - head.len()]);
            } else {
                assert(all[a] == own[a - head.len()]);
                assert(all[b] == own[b - head.len()]);
            }
        }
        if forall|i: int|
            0 <= i < escrows.len() ==> (#[trigger] escrows[i]).client@ != escrows[i].freelancer@ {
            assert(escrows.last() == escrows[escrows.len() - 1]);
            assert(own.len() <= 1);
            assert forall|i: int| 0 <= i < rest.len() implies (#[trigger] rest[i]).client@
                != rest[i].freelancer@ by {
                assert(rest[i] == escrows[i]);
            }
            assert forall|a: int, b: int| 0 <= a < b < all.len() implies all[a] < all[b] by {
                if b < head.len() {
                    assert(all[a] == head[a] && all[b] == head[b]);
                } else {
                    assert(all[a] == head[a]);
                    assert(all[b] == own[b - head.len()]);
                }
            }
            assert(all.no_duplicates());
        }
    }
}

/// Custody over a ledger that gains a record grows by what that record holds.
pub proof fn lemma_custody_push(escrows: Seq<Escrow>, e: Escrow)
    ensures
        custody(escrows.push(e)) == custody(escrows) + e.held(),
{
    assert(escrows.push(e).drop_last() =~= escrows);
}

/// Custody over a ledger in which one record moves on changes by the
/// difference in what that record holds.
pub proof fn lemma_custody_update(escrows: Seq<Escrow>, i: int, e: Escrow)
    requires
        0 <= i < escrows.len(),
    ensures
        custody(escrows.update(i, e)) == custody(escrows) - escrows[i].held() + e.held(),
    decreases escrows.len(),
{
    let updated = escrows.update(i, e);
    if i == escrows.len() - 1 {
        assert(updated.drop_last() =~= escrows.drop_last());
    } else {
        assert(updated.drop_last() =~= escrows.drop_last().update(i, e));
        lemma_custody_update(escrows.drop_last(), i, e);
    }
}

/// No operation on an existing escrow creates or loses value: after an
/// accepted action custody holds what it held before less what the receipt
/// pays out, and a refused action leaves every record as it was.
pub proof fn lemma_ledger_custody(ledger: SafeHandsContract, escrow_id: u64, action: Action)
    ensures
        match ledger.outcome(escrow_id, action) {
            Ok(receipt) => custody(ledger.records_after(escrow_id, action)) == custody(ledger@)
                - paid_out(receipt.transfer),
            Err(e) => ledger.records_after(escrow_id, action) == ledger@,
        },
{
    if ledger.refusal(escrow_id, action) is None {
        let was = ledger@[escrow_id as int];
        lemma_custody_conserved(was, action);
        lemma_custody_update(ledger@, escrow_id as int, was.after(action));
    }
}

/// A deposit brings into custody exactly the amount that its funding
/// transfer locks.
pub proof fn lemma_ledger_deposit_custody(
    ledger: SafeHandsContract,
    client: Identity,
    freelancer: Identity,
    arbiter: Identity,
    token: Identity,
    amount: i128,
    deadline_days: u64,
    now: u64,
)
    requires
        ledger.deposit_refusal(amount, deadline_days, now) is None,
    ensures
        ({
            let e = Escrow::created(client, freelancer, arbiter, token, amount, deadline_days, now);
            custody(ledger@.push(e)) == custody(ledger@) + paid_in(Some(e.funding()))
        }),
{
    let e = Escrow::created(client, freelancer, arbiter, token, amount, deadline_days, now);
    lemma_custody_push(ledger@, e);
}

/// Approving twice is approving once. If `second` is the ledger that an
/// accepted approval of `approver` on the escrow `escrow_id` leaves behind,
/// then the same approval on `second` changes no record, and if it is
/// accepted it owes no transfer and no event.
pub proof fn lemma_ledger_approve_idempotent(
    first: SafeHandsContract,
    second: SafeHandsContract,
    approver: Identity,
    escrow_id: u64,
)
    requires
        first.outcome(escrow_id, Action::Approve { approver }) is Ok,
        second@ == first.records_after(escrow_id, Action::Approve { approver }),
    ensures
        second.records_after(escrow_id, Action::Approve { approver }) == second@,
        second.outcome(escrow_id, Action::Approve { approver }) matches Ok(receipt)
            ==> receipt.transfer is None && receipt.event is None,
{
    let action = Action::Approve { approver };
    let was = first@[escrow_id as int];
    lemma_approve_idempotent(was, approver, escrow_id);
    assert(second@[escrow_id as int] == was.after(action));
    if second.refusal(escrow_id, action) is None {
        assert(second@.update(escrow_id as int, second@[escrow_id as int]) =~= second@);
    }
}

/// What `get_user_escrows` returns on a well-formed ledger: exactly the
/// identifiers of the escrows whose client or freelancer is `user`, in the
/// order of the deposits. Where no escrow has one and the same identity as
/// client and as freelancer, no identifier occurs twice.
pub proof fn lemma_user_escrows_exact(ledger: SafeHandsContract, user: Seq<char>)
    requires
        ledger.wf(),
    ensures
        ledger.user_escrows(user) == participation(ledger@, user),
        forall|id: u64| #[trigger]
            ledger.user_escrows(user).contains(id) <==> id < ledger@.len() && (ledger@[id as int].client@
                == user || ledger@[id as int].freelancer@ == user),
        forall|a: int, b: int|
            0 <= a < b < ledger.user_escrows(user).len() ==> ledger.user_escrows(user)[a]
                <= ledger.user_escrows(user)[b],
        (forall|i: int|
            0 <= i < ledger@.len() ==> (#[trigger] ledger@[i]).client@ != ledger@[i].freelancer@)
            ==> ledger.user_escrows(user).no_duplicates(),
{
    ledger.lemma_invariant();
    lemma_participation_members(ledger@, user);
    lemma_participation_ordered(ledger@, user);
}

} // verus!

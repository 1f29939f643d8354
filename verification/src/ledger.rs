//! The escrow ledger.
//!
//! The ledger owns every escrow record, the identifier counter and the
//! per-identity index. An escrow's identifier is its position in the sequence
//! of records, so the ledger's view is that sequence: `ledger@[id]` is the
//! record of the escrow `id`.

use vstd::prelude::*;
use crate::allocator::IdAllocator;
use crate::error::{ErrorKind, EscrowError};
use crate::escrow::{Action, Escrow, EscrowState, Receipt, Transfer, SECONDS_PER_DAY};
use crate::identity::Identity;
use crate::index::UserIndex;
use crate::laws::{lemma_after_keeps_terms, lemma_after_keeps_wf};

verus! {

/// What the escrow `e`, known as `escrow_id`, adds to the identifiers of
/// `user`: the identifier once if `user` is its client, and once if `user` is
/// its freelancer.
pub open spec fn contribution(e: Escrow, escrow_id: u64, user: Seq<char>) -> Seq<u64> {
    let as_client = if e.client@ == user {
        seq![escrow_id]
    } else {
        Seq::<u64>::empty()
    };
    let as_freelancer = if e.freelancer@ == user {
        seq![escrow_id]
    } else {
        Seq::<u64>::empty()
    };
    as_client + as_freelancer
}

/// The identifiers of the escrows that `user` takes part in, in the order of
/// the deposits.
pub open spec fn participation(escrows: Seq<Escrow>, user: Seq<char>) -> Seq<u64>
    decreases escrows.len(),
{
    if escrows.len() == 0 {
        Seq::<u64>::empty()
    } else {
        participation(escrows.drop_last(), user) + contribution(
            escrows.last(),
            (escrows.len() - 1) as u64,
            user,
        )
    }
}

/// Replacing a record by one with the same client and freelancer changes
/// nobody's participation.
pub proof fn lemma_participation_update(escrows: Seq<Escrow>, i: int, e: Escrow, user: Seq<char>)
    requires
        0 <= i < escrows.len(),
        e.client@ == escrows[i].client@,
        e.freelancer@ == escrows[i].freelancer@,
    ensures
        participation(escrows.update(i, e), user) == participation(escrows, user),
    decreases escrows.len(),
{
    let updated = escrows.update(i, e);
    if i == escrows.len() - 1 {
        assert(updated.drop_last() =~= escrows.drop_last());
    } else {
        assert(updated.drop_last() =~= escrows.drop_last().update(i, e));
        lemma_participation_update(escrows.drop_last(), i, e, user);
    }
}

/// The escrow ledger: every record, the identifier counter and the index.
#[derive(Debug)]
pub struct SafeHandsContract {
    ids: IdAllocator,
    escrows: Vec<Escrow>,
    index: UserIndex,
}

impl View for SafeHandsContract {
    type V = Seq<Escrow>;

    /// The records, by identifier.
    closed spec fn view(&self) -> Seq<Escrow> {
        self.escrows@
    }
}

impl SafeHandsContract {
    /// The identifier that the next successful deposit is given.
    pub closed spec fn next_escrow_id(&self) -> u64 {
        self.ids@
    }

    /// The identifiers that the index holds for `user`, oldest first.
    pub closed spec fn user_escrows(&self, user: Seq<char>) -> Seq<u64> {
        self.index.ids_of(user)
    }

    /// The ledger's invariant: the counter is the number of records, the index
    /// holds for every identity exactly its participation, and every record is
    /// well-formed.
    pub closed spec fn wf(&self) -> bool {
        &&& self.ids@ == self.escrows@.len()
        &&& self.index.wf()
        &&& forall|user: Seq<char>| #[trigger]
            self.index.ids_of(user) == participation(self.escrows@, user)
        &&& forall|i: int| 0 <= i < self.escrows@.len() ==> (#[trigger] self.escrows@[i]).wf()
    }

    /// What the invariant says, over the ledger's public view.
    pub proof fn lemma_invariant(&self)
        requires
            self.wf(),
        ensures
            self.next_escrow_id() == self@.len(),
            forall|user: Seq<char>| #[trigger]
                self.user_escrows(user) == participation(self@, user),
            forall|i: int| 0 <= i < self@.len() ==> (#[trigger] self@[i]).wf(),
    {
    }

    /// Why a deposit with these terms at time `now` is refused, or `None`
    /// where it is accepted: the terms must be valid, and an identifier must
    /// be left. The terms are held to their guards first.
    pub open spec fn deposit_refusal(&self, amount: i128, deadline_days: u64, now: u64) -> Option<
        EscrowError,
    > {
        Escrow::deposit_refusal(self.next_escrow_id(), amount, deadline_days, now)
    }

    /// Why `action` on the escrow `escrow_id` is refused, or `None` where it
    /// is accepted: the escrow must exist and its guards must pass.
    pub open spec fn refusal(&self, escrow_id: u64, action: Action) -> Option<EscrowError> {
        if escrow_id >= self@.len() {
            Some(EscrowError::EscrowNotFound)
        } else {
            self@[escrow_id as int].refusal(action)
        }
    }

    /// The result of `action` on the escrow `escrow_id`.
    pub open spec fn outcome(&self, escrow_id: u64, action: Action) -> Result<
        Receipt,
        EscrowError,
    > {
        match self.refusal(escrow_id, action) {
            Some(e) => Err(e),
            None => Ok(self@[escrow_id as int].receipt(escrow_id, action)),
        }
    }

    /// The records after `action` on the escrow `escrow_id`: that one record
    /// moved on where the action is accepted, nothing changed where it is
    /// refused.
    pub open spec fn records_after(&self, escrow_id: u64, action: Action) -> Seq<Escrow> {
        match self.refusal(escrow_id, action) {
            Some(e) => self@,
            None => self@.update(escrow_id as int, self@[escrow_id as int].after(action)),
        }
    }

    /// The empty ledger: no escrow, the counter at 0, nothing indexed.
    pub fn new() -> (r: SafeHandsContract)
        ensures
            r.wf(),
            r@ == Seq::<Escrow>::empty(),
            r.next_escrow_id() == 0,
            forall|user: Seq<char>| #[trigger] r.user_escrows(user) == Seq::<u64>::empty(),
    {
        SafeHandsContract { ids: IdAllocator::new(), escrows: Vec::new(), index: UserIndex::new() }
    }

    /// The number of escrows ever deposited, which is also the identifier that
    /// the next successful deposit is given.
    pub fn next_id(&self) -> (r: u64)
        ensures
            r == self.next_escrow_id(),
    {
        self.ids.peek()
    }
}

impl SafeHandsContract {
    /// Deposits `amount` of `token` for `freelancer` on behalf of `client`,
    /// who is the authenticated caller, at time `now`.
    ///
    /// The terms are validated before anything is allocated: the amount must
    /// be positive and the deadline at least one day away. A refused deposit
    /// changes nothing and uses up no identifier. An accepted one creates the
    /// funded record under the next identifier, indexes it for the client and
    /// for the freelancer, advances the counter by one, and returns the
    /// identifier with the transfer of the amount into custody and the
    /// deposit event.
    pub fn deposit(
        &mut self,
        client: &Identity,
        freelancer: &Identity,
        arbiter: &Identity,
        token: &Identity,
        amount: i128,
        deadline_days: u64,
        now: u64,
    ) -> (r: Result<Receipt, EscrowError>)
        requires
            old(self).wf(),
        ensures
            final(self).wf(),
            match old(self).deposit_refusal(amount, deadline_days, now) {
                Some(e) => {
                    &&& r == Err::<Receipt, EscrowError>(e)
                    &&& final(self)@ == old(self)@
                    &&& final(self).next_escrow_id() == old(self).next_escrow_id()
                    &&& forall|user: Seq<char>| #[trigger]
                        final(self).user_escrows(user) == old(self).user_escrows(user)
                },
                None => {
                    let id = old(self).next_escrow_id();
                    let e = Escrow::created(
                        *client,
                        *freelancer,
                        *arbiter,
                        *token,
                        amount,
                        deadline_days,
                        now,
                    );
                    &&& r == Ok::<Receipt, EscrowError>(e.deposit_receipt(id))
                    &&& final(self)@ == old(self)@.push(e)
                    &&& final(self).next_escrow_id() == id + 1
                    &&& forall|user: Seq<char>| #[trigger]
                        final(self).user_escrows(user) == old(self).user_escrows(user)
                            + contribution(e, id, user)
                },
            },
            r is Err ==> (r->Err_0.kind_of() == ErrorKind::InvalidInput <==> (amount <= 0
                || deadline_days < 1 || now + deadline_days * SECONDS_PER_DAY > u64::MAX)),
            r matches Ok(receipt) ==> {
                let e = final(self)@[receipt.escrow_id as int];
                &&& e.amount == amount
                &&& e.amount > 0
                &&& e.deadline >= now + SECONDS_PER_DAY
                &&& e.deadline == now + deadline_days * SECONDS_PER_DAY
            },
    {
        let (escrow, receipt) = match Escrow::deposit(
            &mut self.ids,
            client,
            freelancer,
            arbiter,
            token,
            amount,
            deadline_days,
            now,
        ) {
            Ok(admitted) => admitted,
            Err(e) => {
                return Err(e);
            },
        };
        let id = receipt.escrow_id;
        let ghost placed = escrow;
        self.escrows.push(escrow);
        self.index.append(client, id);
        self.index.append(freelancer, id);
        proof {
            assert(self.escrows@.drop_last() =~= old(self).escrows@);
            assert forall|user: Seq<char>| #[trigger]
                self.index.ids_of(user) == old(self).index.ids_of(user) + contribution(
                    placed,
                    id,
                    user,
                ) by {
                let before = old(self).index.ids_of(user);
                assert(self.index.ids_of(user) =~= before + contribution(placed, id, user));
            }
        }
        Ok(receipt)
    }

    /// Carries out `action` on the escrow `escrow_id`.
    ///
    /// An unknown identifier and a failed guard refuse the action and change
    /// nothing. An accepted action moves that one record on and returns what
    /// the host owes. The counter and the index are never touched.
    pub fn perform(&mut self, escrow_id: u64, action: &Action) -> (r: Result<Receipt, EscrowError>)
        requires
            old(self).wf(),
        ensures
            final(self).wf(),
            r == old(self).outcome(escrow_id, *action),
            final(self)@ == old(self).records_after(escrow_id, *action),
            final(self).next_escrow_id() == old(self).next_escrow_id(),
            forall|user: Seq<char>| #[trigger]
                final(self).user_escrows(user) == old(self).user_escrows(user),
    {
        if escrow_id >= self.escrows.len() as u64 {
            return Err(EscrowError::EscrowNotFound);
        }
        let i = escrow_id as usize;
        let r = self.escrows[i].perform(escrow_id, action);
        proof {
            let before = old(self).escrows@;
            let was = before[i as int];
            if r is Ok {
                assert(self.escrows@ =~= before.update(i as int, was.after(*action)));
                lemma_after_keeps_terms(was, *action);
                lemma_after_keeps_wf(was, *action);
                assert forall|user: Seq<char>| #[trigger]
                    self.index.ids_of(user) == participation(self.escrows@, user) by {
                    lemma_participation_update(before, i as int, was.after(*action), user);
                    assert(old(self).index.ids_of(user) == participation(before, user));
                }
            } else {
                assert(self.escrows@ =~= before);
            }
        }
        r
    }

    /// Records the approval of `approver`, the authenticated caller, on the
    /// escrow `escrow_id`, and releases the amount to the freelancer as soon
    /// as both parties have approved.
    ///
    /// Refused if the escrow does not exist, if it is neither funded nor
    /// disputed, or if `approver` is neither its client nor its freelancer.
    /// Approving again is accepted and changes nothing. The receipt holds the
    /// payout to the freelancer and the release event exactly when this
    /// approval completes the mutual approval; then the state is released.
    pub fn approve(&mut self, approver: &Identity, escrow_id: u64) -> (r: Result<
        Receipt,
        EscrowError,
    >)
        requires
            old(self).wf(),
        ensures
            final(self).wf(),
            r == old(self).outcome(escrow_id, Action::Approve { approver: *approver }),
            final(self)@ == old(self).records_after(
                escrow_id,
                Action::Approve { approver: *approver },
            ),
            final(self).next_escrow_id() == old(self).next_escrow_id(),
            forall|user: Seq<char>| #[trigger]
                final(self).user_escrows(user) == old(self).user_escrows(user),
            r is Ok <==> escrow_id < old(self)@.len() && old(self)@[escrow_id as int].state.is_open()
                && old(self)@[escrow_id as int].is_party(*approver),
            r matches Ok(receipt) ==> {
                let was = old(self)@[escrow_id as int];
                let next = final(self)@[escrow_id as int];
                &&& next.state == EscrowState::Released <==> next.approved_by_client
                    && next.approved_by_freelancer
                &&& receipt.transfer is Some <==> next.state == EscrowState::Released
                &&& receipt.transfer matches Some(t) ==> t == (Transfer::Payout {
                    token: was.token,
                    to: was.freelancer,
                    amount: was.amount,
                })
            },
    {
        let action = Action::Approve { approver: approver.clone() };
        self.perform(escrow_id, &action)
    }

    /// Cancels the escrow `escrow_id` for `caller`, the authenticated caller,
    /// and refunds the amount to the client.
    ///
    /// Accepted exactly when the escrow exists, `caller` is its client, it is
    /// funded and the freelancer has not approved. Once the freelancer has
    /// approved, the client's cancellation is refused as an invalid state
    /// transition.
    pub fn cancel(&mut self, caller: &Identity, escrow_id: u64) -> (r: Result<Receipt, EscrowError>)
        requires
            old(self).wf(),
        ensures
            final(self).wf(),
            r == old(self).outcome(escrow_id, Action::Cancel { caller: *caller }),
            final(self)@ == old(self).records_after(escrow_id, Action::Cancel { caller: *caller }),
            final(self).next_escrow_id() == old(self).next_escrow_id(),
            forall|user: Seq<char>| #[trigger]
                final(self).user_escrows(user) == old(self).user_escrows(user),
            r is Ok <==> {
                &&& escrow_id < old(self)@.len()
                &&& old(self)@[escrow_id as int].is_client(*caller)
                &&& old(self)@[escrow_id as int].state == EscrowState::Funded
                &&& !old(self)@[escrow_id as int].approved_by_freelancer
            },
            r matches Ok(receipt) ==> {
                let was = old(self)@[escrow_id as int];
                &&& final(self)@[escrow_id as int].state == EscrowState::Cancelled
                &&& receipt.transfer == Some(
                    Transfer::Payout {
                        token: was.token,
                        to: was.client,
                        amount: was.amount,
                    },
                )
            },
            escrow_id < old(self)@.len() && old(self)@[escrow_id as int].is_client(*caller) && old(
                self,
            )@[escrow_id as int].approved_by_freelancer ==> r is Err && r->Err_0.kind_of()
                == ErrorKind::InvalidStateTransition,
    {
        let action = Action::Cancel { caller: caller.clone() };
        self.perform(escrow_id, &action)
    }

    /// Raises a dispute on the escrow `escrow_id` for `caller`, the
    /// authenticated caller.
    ///
    /// Accepted exactly when the escrow exists, `caller` is its client or its
    /// freelancer, and it is funded. No value moves.
    pub fn dispute(&mut self, caller: &Identity, escrow_id: u64) -> (r: Result<
        Receipt,
        EscrowError,
    >)
        requires
            old(self).wf(),
        ensures
            final(self).wf(),
            r == old(self).outcome(escrow_id, Action::Dispute { caller: *caller }),
            final(self)@ == old(self).records_after(escrow_id, Action::Dispute { caller: *caller }),
            final(self).next_escrow_id() == old(self).next_escrow_id(),
            forall|user: Seq<char>| #[trigger]
                final(self).user_escrows(user) == old(self).user_escrows(user),
            r is Ok <==> {
                &&& escrow_id < old(self)@.len()
                &&& old(self)@[escrow_id as int].is_party(*caller)
                &&& old(self)@[escrow_id as int].state == EscrowState::Funded
            },
            r matches Ok(receipt) ==> {
                &&& final(self)@[escrow_id as int].state == EscrowState::Disputed
                &&& receipt.transfer is None
            },
    {
        let action = Action::Dispute { caller: caller.clone() };
        self.perform(escrow_id, &action)
    }

    /// Resolves the escrow `escrow_id` in favour of `winner`, by the decision
    /// of `arbiter`, the authenticated caller, and awards the amount to
    /// `winner`.
    ///
    /// Accepted exactly when the escrow exists, `arbiter` is its arbiter, it
    /// is funded or disputed, and `winner` is its client or its freelancer.
    pub fn resolve(&mut self, arbiter: &Identity, escrow_id: u64, winner: &Identity) -> (r: Result<
        Receipt,
        EscrowError,
    >)
        requires
            old(self).wf(),
        ensures
            final(self).wf(),
            r == old(self).outcome(
                escrow_id,
                Action::Resolve { arbiter: *arbiter, winner: *winner },
            ),
            final(self)@ == old(self).records_after(
                escrow_id,
                Action::Resolve { arbiter: *arbiter, winner: *winner },
            ),
            final(self).next_escrow_id() == old(self).next_escrow_id(),
            forall|user: Seq<char>| #[trigger]
                final(self).user_escrows(user) == old(self).user_escrows(user),
            r is Ok <==> {
                &&& escrow_id < old(self)@.len()
                &&& arbiter@ == old(self)@[escrow_id as int].arbiter@
                &&& old(self)@[escrow_id as int].state.is_open()
                &&& old(self)@[escrow_id as int].is_party(*winner)
            },
            r matches Ok(receipt) ==> {
                let was = old(self)@[escrow_id as int];
                &&& final(self)@[escrow_id as int].state == EscrowState::Resolved
                &&& receipt.transfer == Some(
                    Transfer::Payout {
                        token: was.token,
                        to: *winner,
                        amount: was.amount,
                    },
                )
            },
    {
        let action = Action::Resolve { arbiter: arbiter.clone(), winner: winner.clone() };
        self.perform(escrow_id, &action)
    }

    /// Reclaims the amount of the escrow `escrow_id` for its client at time
    /// `now`. Anyone may ask: the amount only ever goes to the client.
    ///
    /// Accepted exactly when the escrow exists, is funded, and `now` is at or
    /// after its deadline. A disputed escrow cannot be claimed.
    pub fn claim_timeout(&mut self, escrow_id: u64, now: u64) -> (r: Result<Receipt, EscrowError>)
        requires
            old(self).wf(),
        ensures
            final(self).wf(),
            r == old(self).outcome(escrow_id, Action::ClaimTimeout { now }),
            final(self)@ == old(self).records_after(escrow_id, Action::ClaimTimeout { now }),
            final(self).next_escrow_id() == old(self).next_escrow_id(),
            forall|user: Seq<char>| #[trigger]
                final(self).user_escrows(user) == old(self).user_escrows(user),
            r is Ok <==> {
                &&& escrow_id < old(self)@.len()
                &&& old(self)@[escrow_id as int].state == EscrowState::Funded
                &&& now >= old(self)@[escrow_id as int].deadline
            },
            r matches Ok(receipt) ==> {
                let was = old(self)@[escrow_id as int];
                &&& final(self)@[escrow_id as int].state == EscrowState::Cancelled
                &&& receipt.transfer == Some(
                    Transfer::Payout {
                        token: was.token,
                        to: was.client,
                        amount: was.amount,
                    },
                )
            },
            r is Err && escrow_id < old(self)@.len() ==> r->Err_0.kind_of()
                == ErrorKind::InvalidStateTransition,
    {
        let action = Action::ClaimTimeout { now };
        self.perform(escrow_id, &action)
    }

    /// The record of the escrow `escrow_id`.
    pub fn get_escrow(&self, escrow_id: u64) -> (r: Result<Escrow, EscrowError>)
        ensures
            escrow_id < self@.len() ==> r == Ok::<Escrow, EscrowError>(self@[escrow_id as int]),
            escrow_id >= self@.len() ==> r == Err::<Escrow, EscrowError>(
                EscrowError::EscrowNotFound,
            ),
    {
        if escrow_id >= self.escrows.len() as u64 {
            return Err(EscrowError::EscrowNotFound);
        }
        let i = escrow_id as usize;
        Ok(self.escrows[i].clone())
    }

    /// The identifiers of the escrows that `user` takes part in as client or
    /// as freelancer, in the order of the deposits; empty if there is none.
    pub fn get_user_escrows(&self, user: &Identity) -> (r: Vec<u64>)
        requires
            self.wf(),
        ensures
            r@ == self.user_escrows(user@),
            r@ == participation(self@, user@),
    {
        self.index.lookup(user)
    }
}

} // verus!

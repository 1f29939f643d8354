//! The escrow record and its lifecycle.
//!
//! An escrow is created funded and moves through its states by requests:
//! approval by either party, cancellation by the client, a dispute raised by
//! either party, resolution by the arbiter, and a timeout claim once the
//! deadline has passed. `Escrow::refusal` is the one table of guards that
//! every request is held against; `Escrow::after`, `Escrow::payout` and
//! `Escrow::event` say what an accepted request does.

use vstd::prelude::*;
use crate::allocator::IdAllocator;
use crate::error::EscrowError;
use crate::identity::Identity;

verus! {

/// The number of seconds in a day.
pub const SECONDS_PER_DAY: u64 = 86_400;

/// The shortest deadline that a deposit may ask for, in days.
pub const MIN_DEADLINE_DAYS: u64 = 1;

/// Where an escrow stands in its lifecycle.
#[derive(Clone, Copy, Debug, PartialEq, Eq, Structural)]
pub enum EscrowState {
    /// The amount is in custody and no dispute has been raised.
    Funded,
    /// Both parties approved; the amount went to the freelancer.
    Released,
    /// The amount went back to the client.
    Cancelled,
    /// The amount is in custody and a party has raised a dispute.
    Disputed,
    /// The arbiter awarded the amount to one party.
    Resolved,
}

impl EscrowState {
    /// The amount is still in custody: the escrow is funded or disputed.
    pub open spec fn is_open(self) -> bool {
        self == EscrowState::Funded || self == EscrowState::Disputed
    }

    /// The escrow is released, cancelled or resolved, and stays so.
    pub open spec fn is_terminal(self) -> bool {
        !self.is_open()
    }

    /// Whether the amount is still in custody.
    pub fn in_custody(&self) -> (r: bool)
        ensures
            r == self.is_open(),
    {
        match self {
            EscrowState::Funded | EscrowState::Disputed => true,
            _ => false,
        }
    }
}

/// Custody of a fixed sum between a client and a freelancer, with an arbiter
/// of last resort.
#[derive(Debug, PartialEq, Eq)]
pub struct Escrow {
    pub client: Identity,
    pub freelancer: Identity,
    pub arbiter: Identity,
    pub amount: i128,
    pub token: Identity,
    pub approved_by_client: bool,
    pub approved_by_freelancer: bool,
    /// Seconds since the epoch from which the client may reclaim the amount.
    pub deadline: u64,
    pub state: EscrowState,
}

/// A movement of value that the host must carry out for an accepted request.
#[derive(Debug, PartialEq, Eq)]
pub enum Transfer {
    /// From a party into custody.
    Lock { token: Identity, from: Identity, amount: i128 },
    /// Out of custody to a party.
    Payout { token: Identity, to: Identity, amount: i128 },
}

/// What an accepted request makes known to observers.
#[derive(Debug, PartialEq, Eq)]
pub enum EscrowEvent {
    Deposit { client: Identity, freelancer: Identity, escrow_id: u64, amount: i128 },
    Release { client: Identity, freelancer: Identity, escrow_id: u64, amount: i128 },
    Cancel { client: Identity, escrow_id: u64, amount: i128 },
    Dispute { caller: Identity, escrow_id: u64 },
    Resolve { arbiter: Identity, winner: Identity, escrow_id: u64, amount: i128 },
}

/// What the host owes the outside world for an accepted request.
#[derive(Debug, PartialEq, Eq)]
pub struct Receipt {
    pub escrow_id: u64,
    pub transfer: Option<Transfer>,
    pub event: Option<EscrowEvent>,
}

/// A request against an existing escrow. The identities in it are those of
/// callers whom the host has already authenticated.
#[derive(Debug, PartialEq, Eq)]
pub enum Action {
    Approve { approver: Identity },
    Cancel { caller: Identity },
    Dispute { caller: Identity },
    Resolve { arbiter: Identity, winner: Identity },
    ClaimTimeout { now: u64 },
}

impl Clone for Escrow {
    fn clone(&self) -> (r: Self)
        ensures
            r == *self,
    {
        Escrow {
            client: self.client.clone(),
            freelancer: self.freelancer.clone(),
            arbiter: self.arbiter.clone(),
            amount: self.amount,
            token: self.token.clone(),
            approved_by_client: self.approved_by_client,
            approved_by_freelancer: self.approved_by_freelancer,
            deadline: self.deadline,
            state: self.state,
        }
    }
}

impl Escrow {
    /// Well-formedness of a record: the amount is positive, and the escrow is
    /// released exactly when both parties have approved.
    pub open spec fn wf(self) -> bool {
        &&& self.amount > 0
        &&& self.state == EscrowState::Released <==> (self.approved_by_client
            && self.approved_by_freelancer)
    }

    /// What custody holds for this escrow: the amount while it is funded or
    /// disputed, nothing once it is released, cancelled or resolved.
    pub open spec fn held(self) -> int {
        if self.state.is_open() {
            self.amount as int
        } else {
            0
        }
    }

    /// `who` is the client.
    pub open spec fn is_client(self, who: Identity) -> bool {
        who@ == self.client@
    }

    /// `who` is the freelancer.
    pub open spec fn is_freelancer(self, who: Identity) -> bool {
        who@ == self.freelancer@
    }

    /// `who` is the client or the freelancer.
    pub open spec fn is_party(self, who: Identity) -> bool {
        self.is_client(who) || self.is_freelancer(who)
    }

    /// The table of guards: why `action` is refused on this escrow, or `None`
    /// where it is accepted. Where several guards fail, the first one listed
    /// for the action is reported.
    pub open spec fn refusal(self, action: Action) -> Option<EscrowError> {
        match action {
            Action::Approve { approver } => {
                if !self.state.is_open() {
                    Some(EscrowError::NotApprovable)
                } else if !self.is_party(approver) {
                    Some(EscrowError::ApproverNotParty)
                } else {
                    None
                }
            },
            Action::Cancel { caller } => {
                if !self.is_client(caller) {
                    Some(EscrowError::CancelNotByClient)
                } else if self.state != EscrowState::Funded {
                    Some(EscrowError::NotCancellable)
                } else if self.approved_by_freelancer {
                    Some(EscrowError::FreelancerApproved)
                } else {
                    None
                }
            },
            Action::Dispute { caller } => {
                if !self.is_party(caller) {
                    Some(EscrowError::DisputeNotByParty)
                } else if self.state != EscrowState::Funded {
                    Some(EscrowError::NotDisputable)
                } else {
                    None
                }
            },
            Action::Resolve { arbiter, winner } => {
                if arbiter@ != self.arbiter@ {
                    Some(EscrowError::NotArbiter)
                } else if !self.state.is_open() {
                    Some(EscrowError::NotResolvable)
                } else if !self.is_party(winner) {
                    Some(EscrowError::WinnerNotParty)
                } else {
                    None
                }
            },
            Action::ClaimTimeout { now } => {
                if self.state != EscrowState::Funded {
                    Some(EscrowError::NotClaimable)
                } else if now < self.deadline {
                    Some(EscrowError::DeadlineNotPassed)
                } else {
                    None
                }
            },
        }
    }

    /// The record with the approval of `approver` set: the client's flag for
    /// the client, else the freelancer's flag for the freelancer.
    pub open spec fn approved(self, approver: Identity) -> Escrow {
        if self.is_client(approver) {
            Escrow { approved_by_client: true, ..self }
        } else if self.is_freelancer(approver) {
            Escrow { approved_by_freelancer: true, ..self }
        } else {
            self
        }
    }

    /// An accepted `action` completes the mutual approval: it is an approval
    /// after which both flags are set.
    pub open spec fn releases(self, action: Action) -> bool {
        action matches Action::Approve { approver } && self.approved(approver).approved_by_client
            && self.approved(approver).approved_by_freelancer
    }

    /// The record after an accepted `action`. Only the two approval flags and
    /// the state ever change.
    pub open spec fn after(self, action: Action) -> Escrow {
        match action {
            Action::Approve { approver } => {
                if self.releases(action) {
                    Escrow { state: EscrowState::Released, ..self.approved(approver) }
                } else {
                    self.approved(approver)
                }
            },
            Action::Cancel { caller } => Escrow { state: EscrowState::Cancelled, ..self },
            Action::Dispute { caller } => Escrow { state: EscrowState::Disputed, ..self },
            Action::Resolve { arbiter, winner } => Escrow { state: EscrowState::Resolved, ..self },
            Action::ClaimTimeout { now } => Escrow { state: EscrowState::Cancelled, ..self },
        }
    }

    /// The transfer that an accepted `action` owes: the full amount out of
    /// custody, to the freelancer on release, to the client on cancellation
    /// and timeout, to the winner on resolution; none otherwise.
    pub open spec fn payout(self, action: Action) -> Option<Transfer> {
        match action {
            Action::Approve { approver } => {
                if self.releases(action) {
                    Some(
                        Transfer::Payout {
                            token: self.token,
                            to: self.freelancer,
                            amount: self.amount,
                        },
                    )
                } else {
                    None
                }
            },
            Action::Cancel { caller } => Some(
                Transfer::Payout { token: self.token, to: self.client, amount: self.amount },
            ),
            Action::Dispute { caller } => None,
            Action::Resolve { arbiter, winner } => Some(
                Transfer::Payout { token: self.token, to: winner, amount: self.amount },
            ),
            Action::ClaimTimeout { now } => Some(
                Transfer::Payout { token: self.token, to: self.client, amount: self.amount },
            ),
        }
    }

    /// The event that an accepted `action` emits for the escrow `escrow_id`;
    /// an approval that does not release emits none.
    pub open spec fn event(self, escrow_id: u64, action: Action) -> Option<EscrowEvent> {
        match action {
            Action::Approve { approver } => {
                if self.releases(action) {
                    Some(
                        EscrowEvent::Release {
                            client: self.client,
                            freelancer: self.freelancer,
                            escrow_id,
                            amount: self.amount,
                        },
                    )
                } else {
                    None
                }
            },
            Action::Cancel { caller } => Some(
                EscrowEvent::Cancel { client: self.client, escrow_id, amount: self.amount },
            ),
            Action::Dispute { caller } => Some(EscrowEvent::Dispute { caller, escrow_id }),
            Action::Resolve { arbiter, winner } => Some(
                EscrowEvent::Resolve { arbiter, winner, escrow_id, amount: self.amount },
            ),
            Action::ClaimTimeout { now } => Some(
                EscrowEvent::Cancel { client: self.client, escrow_id, amount: self.amount },
            ),
        }
    }

    /// The receipt of an accepted `action` on the escrow `escrow_id`.
    pub open spec fn receipt(self, escrow_id: u64, action: Action) -> Receipt {
        Receipt {
            escrow_id,
            transfer: self.payout(action),
            event: self.event(escrow_id, action),
        }
    }

    /// Why a deposit with these terms at time `now` is refused, or `None`
    /// where the terms are valid: the amount is positive, the deadline is at
    /// least one day away and is a representable second.
    pub open spec fn terms_refusal(amount: i128, deadline_days: u64, now: u64) -> Option<
        EscrowError,
    > {
        if amount <= 0 {
            Some(EscrowError::AmountNotPositive)
        } else if deadline_days < MIN_DEADLINE_DAYS {
            Some(EscrowError::DeadlineTooShort)
        } else if now + deadline_days * SECONDS_PER_DAY > u64::MAX {
            Some(EscrowError::DeadlineOutOfRange)
        } else {
            None
        }
    }

    /// Why a deposit with these terms at time `now` is refused while the
    /// counter stands at `next_id`, or `None` where it is accepted: the terms
    /// must be valid, and an identifier must be left. The terms are held to
    /// their guards first.
    pub open spec fn deposit_refusal(
        next_id: u64,
        amount: i128,
        deadline_days: u64,
        now: u64,
    ) -> Option<EscrowError> {
        match Escrow::terms_refusal(amount, deadline_days, now) {
            Some(e) => Some(e),
            None => if next_id == u64::MAX {
                Some(EscrowError::IdLimitReached)
            } else {
                None
            },
        }
    }

    /// The record that a deposit with valid terms creates: funded, with no
    /// approval, due `deadline_days` days after `now`.
    pub open spec fn created(
        client: Identity,
        freelancer: Identity,
        arbiter: Identity,
        token: Identity,
        amount: i128,
        deadline_days: u64,
        now: u64,
    ) -> Escrow {
        Escrow {
            client,
            freelancer,
            arbiter,
            amount,
            token,
            approved_by_client: false,
            approved_by_freelancer: false,
            deadline: (now + deadline_days * SECONDS_PER_DAY) as u64,
            state: EscrowState::Funded,
        }
    }

    /// The transfer that funds this escrow: the amount from the client into
    /// custody.
    pub open spec fn funding(self) -> Transfer {
        Transfer::Lock { token: self.token, from: self.client, amount: self.amount }
    }

    /// The event of this escrow's deposit under the identifier `escrow_id`.
    pub open spec fn deposit_event(self, escrow_id: u64) -> EscrowEvent {
        EscrowEvent::Deposit {
            client: self.client,
            freelancer: self.freelancer,
            escrow_id,
            amount: self.amount,
        }
    }

    /// The receipt of this escrow's deposit under the identifier `escrow_id`:
    /// the funding transfer and the deposit event.
    pub open spec fn deposit_receipt(self, escrow_id: u64) -> Receipt {
        Receipt {
            escrow_id,
            transfer: Some(self.funding()),
            event: Some(self.deposit_event(escrow_id)),
        }
    }
}

impl Escrow {
    /// Validates the terms of a deposit made at time `now` and creates the
    /// funded record. Nothing is created where the terms are refused.
    pub fn create(
        client: &Identity,
        freelancer: &Identity,
        arbiter: &Identity,
        token: &Identity,
        amount: i128,
        deadline_days: u64,
        now: u64,
    ) -> (r: Result<Escrow, EscrowError>)
        ensures
            match Escrow::terms_refusal(amount, deadline_days, now) {
                Some(e) => r == Err::<Escrow, EscrowError>(e),
                None => r == Ok::<Escrow, EscrowError>(
                    Escrow::created(
                        *client,
                        *freelancer,
                        *arbiter,
                        *token,
                        amount,
                        deadline_days,
                        now,
                    ),
                ),
            },
            r matches Ok(e) ==> e.wf() && e.deadline >= now + SECONDS_PER_DAY,
    {
        if amount <= 0 {
            return Err(EscrowError::AmountNotPositive);
        }
        if deadline_days < MIN_DEADLINE_DAYS {
            return Err(EscrowError::DeadlineTooShort);
        }
        let span = match deadline_days.checked_mul(SECONDS_PER_DAY) {
            Some(span) => span,
            None => {
                return Err(EscrowError::DeadlineOutOfRange);
            },
        };
        let deadline = match now.checked_add(span) {
            Some(deadline) => deadline,
            None => {
                return Err(EscrowError::DeadlineOutOfRange);
            },
        };
        Ok(
            Escrow {
                client: client.clone(),
                freelancer: freelancer.clone(),
                arbiter: arbiter.clone(),
                amount,
                token: token.clone(),
                approved_by_client: false,
                approved_by_freelancer: false,
                deadline,
                state: EscrowState::Funded,
            },
        )
    }

    /// Admits a deposit made at time `now`: validates the terms, then takes
    /// the next identifier from `ids`, and returns the funded record with the
    /// receipt of its deposit. Validation precedes allocation: a refused
    /// deposit leaves the counter where it is.
    pub fn deposit(
        ids: &mut IdAllocator,
        client: &Identity,
        freelancer: &Identity,
        arbiter: &Identity,
        token: &Identity,
        amount: i128,
        deadline_days: u64,
        now: u64,
    ) -> (r: Result<(Escrow, Receipt), EscrowError>)
        ensures
            match Escrow::deposit_refusal(old(ids)@, amount, deadline_days, now) {
                Some(e) => r == Err::<(Escrow, Receipt), EscrowError>(e) && final(ids)@ == old(
                    ids,
                )@,
                None => {
                    let e = Escrow::created(
                        *client,
                        *freelancer,
                        *arbiter,
                        *token,
                        amount,
                        deadline_days,
                        now,
                    );
                    &&& r == Ok::<(Escrow, Receipt), EscrowError>((e, e.deposit_receipt(old(ids)@)))
                    &&& final(ids)@ == old(ids)@ + 1
                },
            },
    {
        let escrow = match Escrow::create(
            client,
            freelancer,
            arbiter,
            token,
            amount,
            deadline_days,
            now,
        ) {
            Ok(escrow) => escrow,
            Err(e) => {
                return Err(e);
            },
        };
        let escrow_id = match ids.allocate() {
            Ok(escrow_id) => escrow_id,
            Err(e) => {
                return Err(e);
            },
        };
        let receipt = Receipt {
            escrow_id,
            transfer: Some(escrow.funding_transfer()),
            event: Some(escrow.deposit_notice(escrow_id)),
        };
        Ok((escrow, receipt))
    }

    /// Whether `who` is the client or the freelancer.
    pub fn has_party(&self, who: &Identity) -> (r: bool)
        ensures
            r == self.is_party(*who),
    {
        who.same(&self.client) || who.same(&self.freelancer)
    }

    /// Holds `action` against the table of guards.
    pub fn check(&self, action: &Action) -> (r: Result<(), EscrowError>)
        ensures
            match self.refusal(*action) {
                Some(e) => r == Err::<(), EscrowError>(e),
                None => r == Ok::<(), EscrowError>(()),
            },
    {
        match action {
            Action::Approve { approver } => {
                if !self.state.in_custody() {
                    Err(EscrowError::NotApprovable)
                } else if !self.has_party(approver) {
                    Err(EscrowError::ApproverNotParty)
                } else {
                    Ok(())
                }
            },
            Action::Cancel { caller } => {
                if !caller.same(&self.client) {
                    Err(EscrowError::CancelNotByClient)
                } else if self.state != EscrowState::Funded {
                    Err(EscrowError::NotCancellable)
                } else if self.approved_by_freelancer {
                    Err(EscrowError::FreelancerApproved)
                } else {
                    Ok(())
                }
            },
            Action::Dispute { caller } => {
                if !self.has_party(caller) {
                    Err(EscrowError::DisputeNotByParty)
                } else if self.state != EscrowState::Funded {
                    Err(EscrowError::NotDisputable)
                } else {
                    Ok(())
                }
            },
            Action::Resolve { arbiter, winner } => {
                if !arbiter.same(&self.arbiter) {
                    Err(EscrowError::NotArbiter)
                } else if !self.state.in_custody() {
                    Err(EscrowError::NotResolvable)
                } else if !self.has_party(winner) {
                    Err(EscrowError::WinnerNotParty)
                } else {
                    Ok(())
                }
            },
            Action::ClaimTimeout { now } => {
                if self.state != EscrowState::Funded {
                    Err(EscrowError::NotClaimable)
                } else if *now < self.deadline {
                    Err(EscrowError::DeadlineNotPassed)
                } else {
                    Ok(())
                }
            },
        }
    }

    /// The payout of the full amount to `to`.
    fn pay(&self, to: &Identity) -> (r: Transfer)
        ensures
            r == (Transfer::Payout { token: self.token, to: *to, amount: self.amount }),
    {
        Transfer::Payout { token: self.token.clone(), to: to.clone(), amount: self.amount }
    }

    /// The cancel event of this escrow under the identifier `escrow_id`.
    fn cancel_event(&self, escrow_id: u64) -> (r: EscrowEvent)
        ensures
            r == (EscrowEvent::Cancel { client: self.client, escrow_id, amount: self.amount }),
    {
        EscrowEvent::Cancel { client: self.client.clone(), escrow_id, amount: self.amount }
    }

    /// Carries out `action` on this escrow, known to the ledger as
    /// `escrow_id`. A refused action leaves the record as it was; an accepted
    /// one moves it to `after(action)` and returns what the host owes: the
    /// payout, if any, and the event, if any.
    pub fn perform(&mut self, escrow_id: u64, action: &Action) -> (r: Result<Receipt, EscrowError>)
        ensures
            match old(self).refusal(*action) {
                Some(e) => r == Err::<Receipt, EscrowError>(e) && *final(self) == *old(self),
                None => r == Ok::<Receipt, EscrowError>(old(self).receipt(escrow_id, *action))
                    && *final(self) == old(self).after(*action),
            },
    {
        match self.check(action) {
            Err(e) => {
                return Err(e);
            },
            Ok(()) => {},
        }
        match action {
            Action::Approve { approver } => {
                if approver.same(&self.client) {
                    self.approved_by_client = true;
                } else {
                    self.approved_by_freelancer = true;
                }
                if self.approved_by_client && self.approved_by_freelancer {
                    self.state = EscrowState::Released;
                    let transfer = self.pay(&self.freelancer);
                    let event = EscrowEvent::Release {
                        client: self.client.clone(),
                        freelancer: self.freelancer.clone(),
                        escrow_id,
                        amount: self.amount,
                    };
                    Ok(Receipt { escrow_id, transfer: Some(transfer), event: Some(event) })
                } else {
                    Ok(Receipt { escrow_id, transfer: None, event: None })
                }
            },
            Action::Cancel { caller } => {
                self.state = EscrowState::Cancelled;
                let transfer = self.pay(&self.client);
                let event = self.cancel_event(escrow_id);
                Ok(Receipt { escrow_id, transfer: Some(transfer), event: Some(event) })
            },
            Action::Dispute { caller } => {
                self.state = EscrowState::Disputed;
                let event = EscrowEvent::Dispute { caller: caller.clone(), escrow_id };
                Ok(Receipt { escrow_id, transfer: None, event: Some(event) })
            },
            Action::Resolve { arbiter, winner } => {
                self.state = EscrowState::Resolved;
                let transfer = self.pay(winner);
                let event = EscrowEvent::Resolve {
                    arbiter: arbiter.clone(),
                    winner: winner.clone(),
                    escrow_id,
                    amount: self.amount,
                };
                Ok(Receipt { escrow_id, transfer: Some(transfer), event: Some(event) })
            },
            Action::ClaimTimeout { now } => {
                self.state = EscrowState::Cancelled;
                let transfer = self.pay(&self.client);
                let event = self.cancel_event(escrow_id);
                Ok(Receipt { escrow_id, transfer: Some(transfer), event: Some(event) })
            },
        }
    }

    /// The transfer that funds this escrow.
    pub fn funding_transfer(&self) -> (r: Transfer)
        ensures
            r == self.funding(),
    {
        Transfer::Lock {
            token: self.token.clone(),
            from: self.client.clone(),
            amount: self.amount,
        }
    }

    /// The event of this escrow's deposit under the identifier `escrow_id`.
    pub fn deposit_notice(&self, escrow_id: u64) -> (r: EscrowEvent)
        ensures
            r == self.deposit_event(escrow_id),
    {
        EscrowEvent::Deposit {
            client: self.client.clone(),
            freelancer: self.freelancer.clone(),
            escrow_id,
            amount: self.amount,
        }
    }
}

} // verus!

//! Why the ledger refuses a request.

use vstd::prelude::*;

verus! {

/// The five classes of failure. Each refusal belongs to exactly one.
#[derive(Clone, Copy, Debug, PartialEq, Eq, Structural)]
pub enum ErrorKind {
    /// An argument is out of range: the amount, the deadline, the winner.
    InvalidInput,
    /// No escrow has the given identifier.
    NotFound,
    /// The caller is not the party that the operation is reserved for.
    Unauthorized,
    /// The escrow's state does not permit the operation.
    InvalidStateTransition,
    /// The identifier space is exhausted.
    Overflow,
}

/// The precise reason for a refusal. A refused request changes nothing.
#[derive(Clone, Copy, Debug, PartialEq, Eq, Structural)]
pub enum EscrowError {
    /// Deposit of an amount that is zero or negative.
    AmountNotPositive,
    /// Deposit with a deadline of less than one day.
    DeadlineTooShort,
    /// Deposit whose deadline lies beyond the last representable second.
    DeadlineOutOfRange,
    /// Every identifier has been handed out.
    IdLimitReached,
    /// No escrow has the given identifier.
    EscrowNotFound,
    /// Approval of an escrow that is neither funded nor disputed.
    NotApprovable,
    /// Approval by someone who is neither client nor freelancer.
    ApproverNotParty,
    /// Cancellation by someone other than the client.
    CancelNotByClient,
    /// Cancellation of an escrow that is not funded.
    NotCancellable,
    /// Cancellation after the freelancer has approved.
    FreelancerApproved,
    /// Dispute by someone who is neither client nor freelancer.
    DisputeNotByParty,
    /// Dispute of an escrow that is not funded.
    NotDisputable,
    /// Resolution by someone other than the escrow's arbiter.
    NotArbiter,
    /// Resolution of an escrow that is neither funded nor disputed.
    NotResolvable,
    /// Resolution in favour of someone who is neither client nor freelancer.
    WinnerNotParty,
    /// Timeout claim on an escrow that is not funded.
    NotClaimable,
    /// Timeout claim before the deadline.
    DeadlineNotPassed,
}

impl EscrowError {
    /// The class that this refusal belongs to.
    pub open spec fn kind_of(self) -> ErrorKind {
        match self {
            EscrowError::AmountNotPositive => ErrorKind::InvalidInput,
            EscrowError::DeadlineTooShort => ErrorKind::InvalidInput,
            EscrowError::DeadlineOutOfRange => ErrorKind::InvalidInput,
            EscrowError::WinnerNotParty => ErrorKind::InvalidInput,
            EscrowError::EscrowNotFound => ErrorKind::NotFound,
            EscrowError::ApproverNotParty => ErrorKind::Unauthorized,
            EscrowError::CancelNotByClient => ErrorKind::Unauthorized,
            EscrowError::DisputeNotByParty => ErrorKind::Unauthorized,
            EscrowError::NotArbiter => ErrorKind::Unauthorized,
            EscrowError::NotApprovable => ErrorKind::InvalidStateTransition,
            EscrowError::NotCancellable => ErrorKind::InvalidStateTransition,
            EscrowError::FreelancerApproved => ErrorKind::InvalidStateTransition,
            EscrowError::NotDisputable => ErrorKind::InvalidStateTransition,
            EscrowError::NotResolvable => ErrorKind::InvalidStateTransition,
            EscrowError::NotClaimable => ErrorKind::InvalidStateTransition,
            EscrowError::DeadlineNotPassed => ErrorKind::InvalidStateTransition,
            EscrowError::IdLimitReached => ErrorKind::Overflow,
        }
    }

    /// The text of the refusal, as a sequence of characters.
    pub open spec fn message_text(self) -> Seq<char> {
        match self {
            EscrowError::AmountNotPositive => "Amount must be positive"@,
            EscrowError::DeadlineTooShort => "Deadline must be at least 1 day"@,
            EscrowError::DeadlineOutOfRange => "Deadline is out of range"@,
            EscrowError::IdLimitReached => "Escrow ID limit reached"@,
            EscrowError::EscrowNotFound => "Escrow does not exist"@,
            EscrowError::NotApprovable => "Escrow not in a state to be approved"@,
            EscrowError::ApproverNotParty => "Not authorized to approve"@,
            EscrowError::CancelNotByClient => "Only client can cancel"@,
            EscrowError::NotCancellable => "Escrow cannot be cancelled in current state"@,
            EscrowError::FreelancerApproved =>
                "Cannot cancel: Freelancer has already accepted/approved"@,
            EscrowError::DisputeNotByParty => "Only parties can raise dispute"@,
            EscrowError::NotDisputable => "Can only dispute active/funded escrows"@,
            EscrowError::NotArbiter => "Not the authorized arbiter"@,
            EscrowError::NotResolvable => "Escrow not in a state to be resolved"@,
            EscrowError::WinnerNotParty => "Winner must be one of the parties"@,
            EscrowError::NotClaimable => "Escrow not in a state to be claimed"@,
            EscrowError::DeadlineNotPassed => "Deadline has not passed yet"@,
        }
    }

    /// The class that this refusal belongs to.
    pub fn kind(&self) -> (r: ErrorKind)
        ensures
            r == self.kind_of(),
    {
        match self {
            EscrowError::AmountNotPositive
            | EscrowError::DeadlineTooShort
            | EscrowError::DeadlineOutOfRange
            | EscrowError::WinnerNotParty => ErrorKind::InvalidInput,
            EscrowError::EscrowNotFound => ErrorKind::NotFound,
            EscrowError::ApproverNotParty
            | EscrowError::CancelNotByClient
            | EscrowError::DisputeNotByParty
            | EscrowError::NotArbiter => ErrorKind::Unauthorized,
            EscrowError::NotApprovable
            | EscrowError::NotCancellable
            | EscrowError::FreelancerApproved
            | EscrowError::NotDisputable
            | EscrowError::NotResolvable
            | EscrowError::NotClaimable
            | EscrowError::DeadlineNotPassed => ErrorKind::InvalidStateTransition,
            EscrowError::IdLimitReached => ErrorKind::Overflow,
        }
    }

    /// The text of the refusal.
    pub fn message(&self) -> (r: &'static str)
        ensures
            r@ == self.message_text(),
    {
        match self {
            EscrowError::AmountNotPositive => "Amount must be positive",
            EscrowError::DeadlineTooShort => "Deadline must be at least 1 day",
            EscrowError::DeadlineOutOfRange => "Deadline is out of range",
            EscrowError::IdLimitReached => "Escrow ID limit reached",
            EscrowError::EscrowNotFound => "Escrow does not exist",
            EscrowError::NotApprovable => "Escrow not in a state to be approved",
            EscrowError::ApproverNotParty => "Not authorized to approve",
            EscrowError::CancelNotByClient => "Only client can cancel",
            EscrowError::NotCancellable => "Escrow cannot be cancelled in current state",
            EscrowError::FreelancerApproved =>
                "Cannot cancel: Freelancer has already accepted/approved",
            EscrowError::DisputeNotByParty => "Only parties can raise dispute",
            EscrowError::NotDisputable => "Can only dispute active/funded escrows",
            EscrowError::NotArbiter => "Not the authorized arbiter",
            EscrowError::NotResolvable => "Escrow not in a state to be resolved",
            EscrowError::WinnerNotParty => "Winner must be one of the parties",
            EscrowError::NotClaimable => "Escrow not in a state to be claimed",
            EscrowError::DeadlineNotPassed => "Deadline has not passed yet",
        }
    }
}

} // verus!

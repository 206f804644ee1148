use vstd::prelude::*;

verus! {

/// Validation, state and authorization failures raised by the operations.
#[derive(Clone, Copy, Debug, PartialEq, Eq, Structural)]
pub enum ErrorCode {
    TooLong,
    InvalidState,
    BountyExpired,
    Unauthorized,
    InvalidAmount,
}

/// Failures of the bounty lifecycle and of the counters.
#[derive(Clone, Copy, Debug, PartialEq, Eq, Structural)]
pub enum BountyError {
    StringTooLong,
    InvalidTimeLimit,
    InvalidReward,
    NotAClient,
    NotAHunter,
    Unauthorized,
    InvalidStatus,
    SubmissionMismatch,
    PastDeadline,
    MathOverflow,
    InsufficientEscrow,
    InvalidIndex,
    SeedIndexUnavailable,
    BountyNotOpen,
    BountyNotClaimed,
}

/// Every way an operation can fail; a failed operation has no effect.
#[derive(Clone, Copy, Debug, PartialEq, Eq, Structural)]
pub enum MarketError {
    Code(ErrorCode),
    Bounty(BountyError),
    /// A record already exists at the address the operation would create.
    AccountInUse,
    /// No record exists at the address the operation reads.
    AccountNotFound,
    /// A record handed in is not the one that belongs to the acting party.
    AccountMismatch,
    /// The paying account holds less than the amount to move.
    InsufficientFunds,
}

} // verus!

//! How an operation can fail.

use vstd::prelude::*;

verus! {

/// A caller's mistake, reported under a stable number.
#[derive(Clone, Copy, Debug, PartialEq, Eq, Structural)]
pub enum PredifiError {
    /// The caller does not hold the role the operation asks for.
    Unauthorized,
    /// A claim on a pool that is still active, or a cancellation of a resolved pool.
    PoolNotResolved,
    /// The pool is not in the state the operation starts from.
    InvalidPoolState,
    /// The user has claimed from this pool before.
    AlreadyClaimed,
    PoolCanceled,
    /// The resolution delay after the pool's close has not passed.
    ResolutionDelayNotMet,
    /// The asset is not on the allow-list.
    TokenNotWhitelisted,
}

impl PredifiError {
    /// The number the error is reported under.
    pub open spec fn spec_code(self) -> u32 {
        match self {
            PredifiError::Unauthorized => 10,
            PredifiError::PoolNotResolved => 22,
            PredifiError::InvalidPoolState => 24,
            PredifiError::AlreadyClaimed => 60,
            PredifiError::PoolCanceled => 70,
            PredifiError::ResolutionDelayNotMet => 81,
            PredifiError::TokenNotWhitelisted => 91,
        }
    }

    /// The number the error is reported under.
    pub fn code(&self) -> (code: u32)
        ensures
            code == self.spec_code(),
    {
        match self {
            PredifiError::Unauthorized => 10,
            PredifiError::PoolNotResolved => 22,
            PredifiError::InvalidPoolState => 24,
            PredifiError::AlreadyClaimed => 60,
            PredifiError::PoolCanceled => 70,
            PredifiError::ResolutionDelayNotMet => 81,
            PredifiError::TokenNotWhitelisted => 91,
        }
    }
}

/// A condition on which an operation is abandoned outright, with nothing written.
#[derive(Clone, Copy, Debug, PartialEq, Eq, Structural)]
pub enum Fault {
    /// The contract is paused.
    Paused,
    /// The contract has no configuration yet.
    NotInitialized,
    /// No pool has the given id.
    PoolNotFound,
    /// The fee is above 10,000 basis points.
    FeeTooHigh,
    /// The pool would close at or before the current time.
    EndTimeNotInFuture,
    /// The pool would close less than the minimum duration from now.
    DurationTooShort,
    TooFewOptions,
    TooManyOptions,
    NegativeLiquidity,
    ExcessiveLiquidity,
    DescriptionTooLong,
    MetadataUrlTooLong,
    /// The stake is zero or negative.
    AmountNotPositive,
    /// The pool is resolved already.
    AlreadyResolved,
    /// The pool is canceled already.
    AlreadyCanceled,
    /// The pool takes no stakes because it is not active.
    PoolNotActive,
    /// The pool cannot go from its state to the one asked for.
    InvalidTransition,
    /// The pool's close time has passed.
    PoolEnded,
    /// The outcome index is not below the pool's number of outcomes.
    OutcomeOutOfRange,
    /// The user has a stake in this pool already.
    AlreadyStaked,
    /// A sum, product or counter does not fit its type.
    Overflow,
    /// The computed payout is larger than everything staked in the pool.
    WinningsExceedTotal,
}

/// Why an operation did nothing.
#[derive(Clone, Copy, Debug, PartialEq, Eq, Structural)]
pub enum Failure {
    /// The caller's request is refused under a stable error number.
    Denied(PredifiError),
    /// The operation is abandoned.
    Aborted(Fault),
}

} // verus!

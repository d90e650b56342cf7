//! The life of a pool: it is created active, and ends resolved or canceled.
//!
//! The rules here speak of one pool at a time. They say which requests a pool
//! refuses, in which order the reasons are looked for, and what a pool is after
//! a request that it grants.

use crate::contract::PredifiContract;
use crate::error::{Failure, Fault, PredifiError};
use crate::types::{
    Address, MarketState, Pool, BATCH_SIGNAL_OPTIONS, HIGH_VALUE_THRESHOLD, MAX_DESCRIPTION_LEN,
    MAX_INITIAL_LIQUIDITY, MAX_METADATA_URL_LEN, MAX_OPTIONS_COUNT, MIN_OPTIONS_COUNT,
    MIN_POOL_DURATION,
};
use vstd::prelude::*;

verus! {

/// Whether a pool may go from `current` to `next`: only from active, and only to
/// resolved or canceled.
pub open spec fn valid_transition(current: MarketState, next: MarketState) -> bool {
    current == MarketState::Active && (next == MarketState::Resolved || next
        == MarketState::Canceled)
}

/// The length of `text` in bytes.
pub open spec fn byte_len(text: Seq<char>) -> nat {
    vstd::utf8::encode_utf8(text).len()
}

/// The first time at which a pool that closes at `end_time` can be resolved
/// under a resolution delay of `delay`: their sum, or the last time there is
/// where the sum lies beyond it.
pub open spec fn resolution_opens_at(end_time: u64, delay: u64) -> u64 {
    if end_time + delay > u64::MAX {
        u64::MAX
    } else {
        (end_time + delay) as u64
    }
}

/// The first time at which a pool that closes at `end_time` can be resolved.
pub fn resolution_time(end_time: u64, delay: u64) -> (opens: u64)
    ensures
        opens == resolution_opens_at(end_time, delay),
{
    end_time.saturating_add(delay)
}

/// Why a pool with these settings cannot be created at time `now`, if it
/// cannot: the first of the reasons, in this order.
pub open spec fn creation_fault(
    now: u64,
    end_time: u64,
    options_count: u32,
    initial_liquidity: i128,
    description_len: nat,
    metadata_url_len: nat,
) -> Option<Fault> {
    if end_time <= now {
        Some(Fault::EndTimeNotInFuture)
    } else if end_time < now + MIN_POOL_DURATION {
        Some(Fault::DurationTooShort)
    } else if options_count < MIN_OPTIONS_COUNT {
        Some(Fault::TooFewOptions)
    } else if options_count > MAX_OPTIONS_COUNT {
        Some(Fault::TooManyOptions)
    } else if initial_liquidity < 0 {
        Some(Fault::NegativeLiquidity)
    } else if initial_liquidity > MAX_INITIAL_LIQUIDITY {
        Some(Fault::ExcessiveLiquidity)
    } else if description_len > MAX_DESCRIPTION_LEN {
        Some(Fault::DescriptionTooLong)
    } else if metadata_url_len > MAX_METADATA_URL_LEN {
        Some(Fault::MetadataUrlTooLong)
    } else {
        None
    }
}

/// The pool that a creator opens with these settings: active, with the
/// creator's liquidity as all that is staked in it.
pub open spec fn opened_pool(
    creator: Address,
    end_time: u64,
    token: Address,
    options_count: u32,
    description: String,
    metadata_url: String,
    initial_liquidity: i128,
    category: String,
) -> Pool {
    Pool {
        end_time,
        resolved: false,
        canceled: false,
        state: MarketState::Active,
        outcome: 0,
        token,
        total_stake: initial_liquidity,
        description,
        metadata_url,
        options_count,
        initial_liquidity,
        creator,
        category,
    }
}

/// Why `pool` cannot be resolved to `outcome` at time `now`, if it cannot.
pub open spec fn resolve_failure(
    pool: Pool,
    delay: u64,
    outcome: u32,
    now: u64,
) -> Option<Failure> {
    if pool.resolved {
        Some(Failure::Aborted(Fault::AlreadyResolved))
    } else if pool.canceled {
        Some(Failure::Aborted(Fault::AlreadyCanceled))
    } else if pool.state != MarketState::Active {
        Some(Failure::Denied(PredifiError::InvalidPoolState))
    } else if now < resolution_opens_at(pool.end_time, delay) {
        Some(Failure::Denied(PredifiError::ResolutionDelayNotMet))
    } else if outcome >= pool.options_count {
        Some(Failure::Aborted(Fault::OutcomeOutOfRange))
    } else {
        None
    }
}

/// `pool` once it is resolved to `outcome`.
pub open spec fn resolved_pool(pool: Pool, outcome: u32) -> Pool {
    Pool { state: MarketState::Resolved, resolved: true, outcome, ..pool }
}

/// Why `pool` cannot be canceled, if it cannot.
pub open spec fn cancel_failure(pool: Pool) -> Option<Failure> {
    if pool.resolved {
        Some(Failure::Denied(PredifiError::PoolNotResolved))
    } else if pool.canceled {
        Some(Failure::Aborted(Fault::AlreadyCanceled))
    } else if !valid_transition(pool.state, MarketState::Canceled) {
        Some(Failure::Aborted(Fault::InvalidTransition))
    } else {
        None
    }
}

/// `pool` once it is canceled.
pub open spec fn canceled_pool(pool: Pool) -> Pool {
    Pool { state: MarketState::Canceled, canceled: true, ..pool }
}

/// Why `pool` is not ready to be resolved at time `now`, if it is not.
pub open spec fn ready_failure(pool: Pool, delay: u64, now: u64) -> Option<PredifiError> {
    if pool.state != MarketState::Active {
        Some(PredifiError::InvalidPoolState)
    } else if now < resolution_opens_at(pool.end_time, delay) {
        Some(PredifiError::ResolutionDelayNotMet)
    } else {
        None
    }
}

/// Why `pool` does not take a stake of `amount` on `outcome` at time `now`, if
/// it does not, from a user of whom `staked` says whether they have a stake in
/// the pool already. A user has one stake in a pool: a second one is turned
/// away, whatever its amount and outcome.
pub open spec fn stake_fault(
    pool: Pool,
    staked: bool,
    amount: i128,
    outcome: u32,
    now: u64,
) -> Option<Fault> {
    if amount <= 0 {
        Some(Fault::AmountNotPositive)
    } else if pool.resolved {
        Some(Fault::AlreadyResolved)
    } else if pool.canceled {
        Some(Fault::AlreadyCanceled)
    } else if pool.state != MarketState::Active {
        Some(Fault::PoolNotActive)
    } else if now >= pool.end_time {
        Some(Fault::PoolEnded)
    } else if outcome >= pool.options_count {
        Some(Fault::OutcomeOutOfRange)
    } else if pool.total_stake + amount > i128::MAX {
        Some(Fault::Overflow)
    } else if staked {
        Some(Fault::AlreadyStaked)
    } else {
        None
    }
}

/// Whether a stake of `amount` is a stake at all: it is more than nothing.
pub fn check_amount(amount: i128) -> (checked: Result<(), Fault>)
    ensures
        checked == (if amount <= 0 {
            Err::<(), Fault>(Fault::AmountNotPositive)
        } else {
            Ok(())
        }),
{
    if amount <= 0 {
        Err(Fault::AmountNotPositive)
    } else {
        Ok(())
    }
}

/// Whether a stake of `amount` is also reported as a high-value one.
pub fn is_high_value(amount: i128) -> (high: bool)
    ensures
        high == (amount >= HIGH_VALUE_THRESHOLD),
{
    amount >= HIGH_VALUE_THRESHOLD
}

/// Whether a pool with `options_count` outcomes reports its whole stake table
/// as changed with every stake.
pub fn reports_whole_table(options_count: u32) -> (reports: bool)
    ensures
        reports == (options_count >= BATCH_SIGNAL_OPTIONS),
{
    options_count >= BATCH_SIGNAL_OPTIONS
}

impl PredifiContract {
    /// Whether a pool may go from `current` to `next`.
    pub fn is_valid_state_transition(current: MarketState, next: MarketState) -> (valid: bool)
        ensures
            valid == valid_transition(current, next),
    {
        match (current, next) {
            (MarketState::Active, MarketState::Resolved) => true,
            (MarketState::Active, MarketState::Canceled) => true,
            _ => false,
        }
    }
}

impl Pool {
    /// Opens a pool at time `now`, or says why it cannot be opened.
    pub fn open(
        creator: Address,
        end_time: u64,
        token: Address,
        options_count: u32,
        description: String,
        metadata_url: String,
        initial_liquidity: i128,
        category: String,
        now: u64,
    ) -> (opened: Result<Pool, Fault>)
        ensures
            opened == (match creation_fault(
                now,
                end_time,
                options_count,
                initial_liquidity,
                byte_len(description@),
                byte_len(metadata_url@),
            ) {
                Some(fault) => Err::<Pool, Fault>(fault),
                None => Ok(
                    opened_pool(
                        creator,
                        end_time,
                        token,
                        options_count,
                        description,
                        metadata_url,
                        initial_liquidity,
                        category,
                    ),
                ),
            }),
    {
        if end_time <= now {
            return Err(Fault::EndTimeNotInFuture);
        }
        if end_time - now < MIN_POOL_DURATION {
            return Err(Fault::DurationTooShort);
        }
        if options_count < MIN_OPTIONS_COUNT {
            return Err(Fault::TooFewOptions);
        }
        if options_count > MAX_OPTIONS_COUNT {
            return Err(Fault::TooManyOptions);
        }
        if initial_liquidity < 0 {
            return Err(Fault::NegativeLiquidity);
        }
        if initial_liquidity > MAX_INITIAL_LIQUIDITY {
            return Err(Fault::ExcessiveLiquidity);
        }
        if description.as_str().as_bytes().len() > MAX_DESCRIPTION_LEN {
            return Err(Fault::DescriptionTooLong);
        }
        if metadata_url.as_str().as_bytes().len() > MAX_METADATA_URL_LEN {
            return Err(Fault::MetadataUrlTooLong);
        }
        Ok(
            Pool {
                end_time,
                resolved: false,
                canceled: false,
                state: MarketState::Active,
                outcome: 0,
                token,
                total_stake: initial_liquidity,
                description,
                metadata_url,
                options_count,
                initial_liquidity,
                creator,
                category,
            },
        )
    }

    /// Resolves the pool to `outcome` at time `now`, under a resolution delay of
    /// `delay`, or says why it cannot be resolved and leaves it as it is.
    pub fn resolve(&mut self, delay: u64, outcome: u32, now: u64) -> (done: Result<(), Failure>)
        ensures
            done == (match resolve_failure(*old(self), delay, outcome, now) {
                Some(failure) => Err::<(), Failure>(failure),
                None => Ok(()),
            }),
            *final(self) == (if done is Ok {
                resolved_pool(*old(self), outcome)
            } else {
                *old(self)
            }),
    {
        if self.resolved {
            return Err(Failure::Aborted(Fault::AlreadyResolved));
        }
        if self.canceled {
            return Err(Failure::Aborted(Fault::AlreadyCanceled));
        }
        if self.state != MarketState::Active {
            return Err(Failure::Denied(PredifiError::InvalidPoolState));
        }
        if now < resolution_time(self.end_time, delay) {
            return Err(Failure::Denied(PredifiError::ResolutionDelayNotMet));
        }
        if outcome >= self.options_count || !PredifiContract::is_valid_state_transition(
            self.state,
            MarketState::Resolved,
        ) {
            return Err(Failure::Aborted(Fault::OutcomeOutOfRange));
        }
        self.state = MarketState::Resolved;
        self.resolved = true;
        self.outcome = outcome;
        Ok(())
    }

    /// Cancels the pool, or says why it cannot be canceled and leaves it as it
    /// is.
    pub fn cancel(&mut self) -> (done: Result<(), Failure>)
        ensures
            done == (match cancel_failure(*old(self)) {
                Some(failure) => Err::<(), Failure>(failure),
                None => Ok(()),
            }),
            *final(self) == (if done is Ok {
                canceled_pool(*old(self))
            } else {
                *old(self)
            }),
    {
        if self.resolved {
            return Err(Failure::Denied(PredifiError::PoolNotResolved));
        }
        if self.canceled {
            return Err(Failure::Aborted(Fault::AlreadyCanceled));
        }
        if !PredifiContract::is_valid_state_transition(self.state, MarketState::Canceled) {
            return Err(Failure::Aborted(Fault::InvalidTransition));
        }
        self.state = MarketState::Canceled;
        self.canceled = true;
        Ok(())
    }

    /// Whether the pool is ready to be resolved at time `now`: it is active, and
    /// the resolution delay after its close has passed.
    pub fn check_ready(&self, delay: u64, now: u64) -> (ready: Result<(), PredifiError>)
        ensures
            ready == (match ready_failure(*self, delay, now) {
                Some(error) => Err::<(), PredifiError>(error),
                None => Ok(()),
            }),
    {
        if self.state != MarketState::Active {
            return Err(PredifiError::InvalidPoolState);
        }
        if now >= resolution_time(self.end_time, delay) {
            Ok(())
        } else {
            Err(PredifiError::ResolutionDelayNotMet)
        }
    }

    /// Whether the pool takes a stake of `amount` on `outcome` at time `now`
    /// from a user of whom `staked` says whether they have a stake in the pool
    /// already. Where it does, returns what is staked in the pool once the stake
    /// is in.
    pub fn check_stake(
        &self,
        staked: bool,
        amount: i128,
        outcome: u32,
        now: u64,
    ) -> (total: Result<i128, Fault>)
        ensures
            total == (match stake_fault(*self, staked, amount, outcome, now) {
                Some(fault) => Err::<i128, Fault>(fault),
                None => Ok((self.total_stake + amount) as i128),
            }),
    {
        if amount <= 0 {
            return Err(Fault::AmountNotPositive);
        }
        if self.resolved {
            return Err(Fault::AlreadyResolved);
        }
        if self.canceled {
            return Err(Fault::AlreadyCanceled);
        }
        if self.state != MarketState::Active {
            return Err(Fault::PoolNotActive);
        }
        if now >= self.end_time {
            return Err(Fault::PoolEnded);
        }
        if outcome >= self.options_count {
            return Err(Fault::OutcomeOutOfRange);
        }
        match self.total_stake.checked_add(amount) {
            None => Err(Fault::Overflow),
            Some(total) => {
                if staked {
                    Err(Fault::AlreadyStaked)
                } else {
                    Ok(total)
                }
            },
        }
    }
}

} // verus!

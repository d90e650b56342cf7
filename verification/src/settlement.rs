//! What a stake pays out once its pool is settled.

use crate::contract::PredifiContract;
use crate::error::{Failure, Fault, PredifiError};
use crate::types::{MarketState, Pool, Prediction};
use vstd::arithmetic::div_mod::{lemma_fundamental_div_mod, lemma_fundamental_div_mod_converse};
use vstd::prelude::*;

verus! {

/// `x` divided by `d`, rounded down. Zero where `d` is zero.
pub open spec fn floor_div(x: int, d: int) -> int {
    if d > 0 {
        x / d
    } else if d < 0 {
        (-x) / (-d)
    } else {
        0
    }
}

/// The share of a pool of `total_stake` owed to a stake of `user_stake` on the
/// winning outcome, on which `winning_stake` was staked in all: the stake's
/// proportion of the whole pool, rounded down. Nothing is owed where nobody
/// backed the winning outcome.
pub open spec fn payout(user_stake: int, winning_stake: int, total_stake: int) -> int {
    if winning_stake == 0 {
        0
    } else {
        floor_div(user_stake * total_stake, winning_stake)
    }
}

/// Whether the payout can be computed in 128 bits: the product of stake and
/// total fits, and so does the quotient.
pub open spec fn payout_fits(user_stake: int, winning_stake: int, total_stake: int) -> bool {
    winning_stake != 0 ==> {
        &&& i128::MIN <= user_stake * total_stake <= i128::MAX
        &&& i128::MIN <= floor_div(user_stake * total_stake, winning_stake) <= i128::MAX
    }
}

/// Division by a negative number: how the quotient rounded down relates to the
/// quotient and remainder that leave a remainder of zero or more, and that
/// neither leaves 128 bits unless the dividend is the least value and the
/// divisor is minus one.
proof fn lemma_floor_div_negative_divisor(x: int, d: int)
    requires
        d < 0,
        i128::MIN <= x <= i128::MAX,
    ensures
        0 <= x % d < -d,
        (-x) / (-d) == if x % d == 0 {
            x / d
        } else {
            x / d - 1
        },
        !(x == i128::MIN && d == -1) ==> i128::MIN < x / d <= i128::MAX,
{
    let q = x / d;
    let r = x % d;
    let e = -d;
    lemma_fundamental_div_mod(x, d);
    assert(0 <= r < e) by (nonlinear_arith)
        requires
            d < 0,
            r == x % d,
            e == -d,
    ;
    if r == 0 {
        assert(-x == q * e + 0) by (nonlinear_arith)
            requires
                x == d * q + r,
                r == 0,
                e == -d,
        ;
        lemma_fundamental_div_mod_converse(-x, e, q, 0);
    } else {
        assert(-x == (q - 1) * e + (e - r)) by (nonlinear_arith)
            requires
                x == d * q + r,
                e == -d,
        ;
        lemma_fundamental_div_mod_converse(-x, e, q - 1, e - r);
    }
    if !(x == i128::MIN && d == -1) {
        assert(i128::MIN < q <= i128::MAX) by (nonlinear_arith)
            requires
                x == d * q + r,
                0 <= r < -d,
                d < 0,
                i128::MIN <= x <= i128::MAX,
                !(x == i128::MIN && d == -1),
        ;
    }
}

/// `x` divided by `d`, rounded down, where that fits in 128 bits.
pub fn checked_floor_div(x: i128, d: i128) -> (quotient: Option<i128>)
    requires
        d != 0,
    ensures
        quotient == (if i128::MIN <= floor_div(x as int, d as int) <= i128::MAX {
            Some(floor_div(x as int, d as int) as i128)
        } else {
            None
        }),
{
    if d > 0 {
        x.checked_div_euclid(d)
    } else if x == i128::MIN && d == -1 {
        assert(floor_div(x as int, d as int) == -(x as int));
        None
    } else {
        proof {
            lemma_floor_div_negative_divisor(x as int, d as int);
        }
        let q = x.checked_div_euclid(d);
        let r = x.checked_rem_euclid(d);
        match (q, r) {
            (Some(q), Some(r)) => if r == 0 {
                Some(q)
            } else {
                Some(q - 1)
            },
            _ => None,
        }
    }
}

/// The payout of a stake, where it can be computed in 128 bits.
pub fn checked_winnings(
    user_stake: i128,
    winning_stake: i128,
    total_stake: i128,
) -> (winnings: Option<i128>)
    ensures
        winnings == (if payout_fits(user_stake as int, winning_stake as int, total_stake as int) {
            Some(payout(user_stake as int, winning_stake as int, total_stake as int) as i128)
        } else {
            None
        }),
{
    if winning_stake == 0 {
        return Some(0);
    }
    match user_stake.checked_mul(total_stake) {
        None => None,
        Some(product) => checked_floor_div(product, winning_stake),
    }
}

impl PredifiContract {
    /// The payout of a stake of `user_stake` on the winning outcome of a pool in
    /// which `total_stake` was staked in all and `winning_stake` on that outcome.
    pub fn calculate_winnings(
        user_stake: i128,
        winning_stake: i128,
        total_stake: i128,
    ) -> (winnings: i128)
        requires
            payout_fits(user_stake as int, winning_stake as int, total_stake as int),
        ensures
            winnings == payout(user_stake as int, winning_stake as int, total_stake as int),
    {
        match checked_winnings(user_stake, winning_stake, total_stake) {
            Some(winnings) => winnings,
            None => 0,
        }
    }
}

/// What a claim on `pool` comes to, for a user whose stake in it is
/// `prediction`, where `claimed` says whether the user has claimed before and
/// `winning_stake` is what was staked on the pool's outcome: the amount to pay
/// the user, if any is to be paid, or why the claim is refused.
///
/// A pool that is still active pays nothing out yet, and nobody claims twice.
/// Without a stake the claim comes to nothing. From a canceled pool the user has
/// the stake back, whole. From a resolved pool a stake on another outcome than
/// the winning one comes to nothing, and a stake on the winning outcome to its
/// payout, which is never more than the pool holds.
pub open spec fn claim_outcome(
    pool: Pool,
    claimed: bool,
    prediction: Option<Prediction>,
    winning_stake: i128,
) -> Result<Option<i128>, Failure> {
    if pool.state == MarketState::Active {
        Err(Failure::Denied(PredifiError::PoolNotResolved))
    } else if claimed {
        Err(Failure::Denied(PredifiError::AlreadyClaimed))
    } else {
        match prediction {
            None => Ok(None),
            Some(stake) => {
                if pool.state == MarketState::Canceled {
                    Ok(Some(stake.amount))
                } else if stake.outcome != pool.outcome {
                    Ok(None)
                } else if winning_stake == 0 {
                    Ok(None)
                } else if !payout_fits(
                    stake.amount as int,
                    winning_stake as int,
                    pool.total_stake as int,
                ) {
                    Err(Failure::Aborted(Fault::Overflow))
                } else if payout(stake.amount as int, winning_stake as int, pool.total_stake as int)
                    > pool.total_stake {
                    Err(Failure::Aborted(Fault::WinningsExceedTotal))
                } else {
                    Ok(
                        Some(
                            payout(
                                stake.amount as int,
                                winning_stake as int,
                                pool.total_stake as int,
                            ) as i128,
                        ),
                    )
                }
            },
        }
    }
}

/// The amount that a settled claim hands to the user: what is paid, or nothing.
pub open spec fn amount_paid(paid: Option<i128>) -> i128 {
    match paid {
        Some(amount) => amount,
        None => 0,
    }
}

/// Decides a claim: what it pays, if anything, or why it is refused.
pub fn settle_claim(
    pool: &Pool,
    claimed: bool,
    prediction: Option<Prediction>,
    winning_stake: i128,
) -> (settled: Result<Option<i128>, Failure>)
    ensures
        settled == claim_outcome(*pool, claimed, prediction, winning_stake),
{
    if pool.state == MarketState::Active {
        return Err(Failure::Denied(PredifiError::PoolNotResolved));
    }
    if claimed {
        return Err(Failure::Denied(PredifiError::AlreadyClaimed));
    }
    let stake = match prediction {
        None => {
            return Ok(None);
        },
        Some(stake) => stake,
    };
    if pool.state == MarketState::Canceled {
        return Ok(Some(stake.amount));
    }
    if stake.outcome != pool.outcome {
        return Ok(None);
    }
    if winning_stake == 0 {
        return Ok(None);
    }
    match checked_winnings(stake.amount, winning_stake, pool.total_stake) {
        None => Err(Failure::Aborted(Fault::Overflow)),
        Some(winnings) => {
            if winnings > pool.total_stake {
                Err(Failure::Aborted(Fault::WinningsExceedTotal))
            } else {
                Ok(Some(winnings))
            }
        },
    }
}

/// The payout for the whole winning stake is the whole pool; a part of it is
/// paid no more than the pool and no less than nothing.
pub proof fn lemma_payout_bounded(user_stake: int, winning_stake: int, total_stake: int)
    requires
        0 <= user_stake <= winning_stake,
        0 <= total_stake,
    ensures
        0 <= payout(user_stake, winning_stake, total_stake) <= total_stake,
        winning_stake > 0 ==> payout(winning_stake, winning_stake, total_stake) == total_stake,
        winning_stake > 0 ==> winning_stake * payout(user_stake, winning_stake, total_stake)
            <= user_stake * total_stake < winning_stake * payout(
            user_stake,
            winning_stake,
            total_stake,
        ) + winning_stake,
{
    if winning_stake > 0 {
        let product = user_stake * total_stake;
        let quotient = product / winning_stake;
        assert(0 <= product <= winning_stake * total_stake) by (nonlinear_arith)
            requires
                0 <= user_stake <= winning_stake,
                0 <= total_stake,
                product == user_stake * total_stake,
        ;
        lemma_fundamental_div_mod(product, winning_stake);
        assert(0 <= product % winning_stake < winning_stake) by (nonlinear_arith)
            requires
                winning_stake > 0,
        ;
        assert(0 <= quotient <= total_stake) by (nonlinear_arith)
            requires
                winning_stake > 0,
                0 <= product <= winning_stake * total_stake,
                product == winning_stake * quotient + product % winning_stake,
                0 <= product % winning_stake < winning_stake,
        ;
        assert(winning_stake * total_stake == total_stake * winning_stake + 0) by (nonlinear_arith);
        lemma_fundamental_div_mod_converse(
            winning_stake * total_stake,
            winning_stake,
            total_stake,
            0,
        );
    }
}

} // verus!

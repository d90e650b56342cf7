//! That a settled pool pays out no more than was staked in it, and how close
//! the payouts come to all of it.

use crate::market::{staked_on, MarketView, StakeEntry};
use crate::settlement::{amount_paid, lemma_payout_bounded, payout, payout_fits};
use crate::stakes::{lemma_sum_nonnegative, lemma_sum_update, lemma_sum_zeros, sum_stakes};
use crate::types::{MarketState, Pool};
use vstd::prelude::*;

verus! {

impl MarketView {
    /// What the stake in place `i` of the books is owed once the pool is
    /// settled: the stake itself from a canceled pool; from a resolved pool its
    /// payout if it is on the winning outcome, and nothing if it is not.
    pub open spec fn due(self, i: int) -> int {
        let stake = self.entries[i].prediction;
        if self.pool.state == MarketState::Canceled {
            stake.amount as int
        } else if stake.outcome != self.pool.outcome {
            0
        } else {
            payout(
                stake.amount as int,
                self.winning_stake() as int,
                self.pool.total_stake as int,
            )
        }
    }

    /// Whether the stake in place `i` is on the pool's outcome.
    pub open spec fn wins(self, i: int) -> bool {
        self.entries[i].prediction.outcome == self.pool.outcome
    }

    /// What the claims settled so far have been paid, among the first `n`
    /// stakes.
    pub open spec fn claimed_among(self, n: nat) -> int
        decreases n,
    {
        if n == 0 {
            0
        } else {
            self.claimed_among((n - 1) as nat) + if self.receipts.contains(
                self.entries[n - 1].user@,
            ) {
                self.due(n - 1)
            } else {
                0
            }
        }
    }

    /// What the claims settled so far have been paid in all.
    pub open spec fn claimed_payouts(self) -> int {
        self.claimed_among(self.entries.len())
    }

    /// How many of the first `n` stakes are on the pool's outcome.
    pub open spec fn winners_among(self, n: nat) -> nat
        decreases n,
    {
        if n == 0 {
            0
        } else {
            self.winners_among((n - 1) as nat) + if self.wins(n - 1) {
                1nat
            } else {
                0nat
            }
        }
    }

    /// How many stakes are on the pool's outcome.
    pub open spec fn winners(self) -> nat {
        self.winners_among(self.entries.len())
    }

    /// Whether everyone with a stake on the pool's outcome has claimed.
    pub open spec fn all_winners_claimed(self) -> bool {
        forall|i: int|
            0 <= i < self.entries.len() && self.wins(i) ==> self.receipts.contains(
                (#[trigger] self.entries[i]).user@,
            )
    }
}

proof fn lemma_scale_sum(k: int, x: int, y: int)
    by (nonlinear_arith)
    ensures
        k * (x + y) == k * x + k * y,
        (x + y) * k == x * k + y * k,
        k * x == x * k,
{
}

proof fn lemma_staked_on_step(entries: Seq<StakeEntry>, n: int, outcome: int)
    requires
        0 <= n < entries.len(),
    ensures
        staked_on(entries.take(n + 1), outcome) == staked_on(entries.take(n), outcome) + (
        if entries[n].prediction.outcome == outcome {
            entries[n].prediction.amount as int
        } else {
            0
        }),
{
    assert(entries.take(n + 1).drop_last() =~= entries.take(n));
}

/// The payouts of a resolved pool, weighed against the stakes they are for.
/// With `W` staked on the winning outcome and `T` in all, the first `n` stakes
/// have been paid no more than their share of `T`, and, where every winner
/// among them has claimed, less than one unit short of it for each winner.
proof fn lemma_resolved_payouts(market: MarketView, n: nat)
    requires
        market.inv(),
        market.pool.state == MarketState::Resolved,
        market.winning_stake() > 0,
        n <= market.entries.len(),
    ensures
        0 <= market.claimed_among(n),
        market.winning_stake() * market.claimed_among(n) <= market.pool.total_stake * staked_on(
            market.entries.take(n as int),
            market.pool.outcome as int,
        ),
        market.all_winners_claimed() ==> market.pool.total_stake * staked_on(
            market.entries.take(n as int),
            market.pool.outcome as int,
        ) - market.winning_stake() * market.claimed_among(n) <= market.winners_among(n) * (
        market.winning_stake() - 1),
    decreases n,
{
    let won = market.winning_stake() as int;
    let total = market.pool.total_stake as int;
    let outcome = market.pool.outcome as int;
    if n > 0 {
        let i = (n - 1) as int;
        lemma_resolved_payouts(market, (n - 1) as nat);
        lemma_staked_on_step(market.entries, i, outcome);
        market.lemma_stake_within_outcome(i);
        market.lemma_stakes_nonnegative();
        let before = market.claimed_among((n - 1) as nat);
        let staked = staked_on(market.entries.take(i), outcome);
        let stake = market.entries[i].prediction.amount as int;
        let winners = market.winners_among((n - 1) as nat) as int;
        lemma_scale_sum(won, before, market.due(i));
        lemma_scale_sum(total, staked, stake);
        lemma_scale_sum(won - 1, winners, 1);
        if market.wins(i) {
            lemma_payout_bounded(stake, won, total);
        }
        assert(winners * (won - 1) >= 0) by (nonlinear_arith)
            requires
                winners >= 0,
                won > 0,
        ;
    }
}

/// What a claim pays is what the stake is owed. For a user with a stake in a
/// settled pool who has not claimed, the claim is settled for what is due to
/// the stake, unless the payout cannot be computed in 128 bits; it is never
/// turned away for coming to more than the pool holds.
pub proof fn law_claim_pays_due(market: MarketView, user: Seq<char>, i: int)
    requires
        market.inv(),
        market.pool.state != MarketState::Active,
        !market.receipts.contains(user),
        market.is_stake_of(i, user),
    ensures
        0 <= market.due(i) <= market.pool.total_stake,
        match market.claim_result(user) {
            Ok(paid) => amount_paid(paid) == market.due(i),
            Err(failure) => failure == crate::error::Failure::Aborted(crate::error::Fault::Overflow)
                && !payout_fits(
                market.entries[i].prediction.amount as int,
                market.winning_stake() as int,
                market.pool.total_stake as int,
            ),
        },
{
    let chosen = choose|k: int| market.is_stake_of(k, user);
    market.lemma_one_stake_each(i, chosen);
    market.lemma_stake_within_outcome(i);
    market.lemma_stakes_nonnegative();
    let stake = market.entries[i].prediction;
    if market.pool.state == MarketState::Resolved && stake.outcome == market.pool.outcome {
        lemma_payout_bounded(
            stake.amount as int,
            market.winning_stake() as int,
            market.pool.total_stake as int,
        );
    }
}

/// A receipt for `user` adds to the payouts what is due to the stake of `user`,
/// among the first `n` stakes, and nothing where the stake is not among them.
proof fn lemma_receipt_adds_due(market: MarketView, user: Seq<char>, n: nat)
    requires
        market.inv(),
        !market.receipts.contains(user),
        n <= market.entries.len(),
    ensures
        market.with_receipt(user).claimed_among(n) == market.claimed_among(n) + if exists|i: int|
            0 <= i < n && market.is_stake_of(i, user) {
            market.due(choose|i: int| 0 <= i < n && market.is_stake_of(i, user))
        } else {
            0
        },
    decreases n,
{
    if n > 0 {
        let last = (n - 1) as int;
        lemma_receipt_adds_due(market, user, (n - 1) as nat);
        if market.entries[last].user@ == user {
            assert(market.is_stake_of(last, user));
            let found = choose|i: int| 0 <= i < n && market.is_stake_of(i, user);
            market.lemma_one_stake_each(found, last);
            if exists|i: int| 0 <= i < n - 1 && market.is_stake_of(i, user) {
                let earlier = choose|i: int| 0 <= i < n - 1 && market.is_stake_of(i, user);
                market.lemma_one_stake_each(earlier, last);
            }
        } else if exists|i: int| 0 <= i < n && market.is_stake_of(i, user) {
            let found = choose|i: int| 0 <= i < n && market.is_stake_of(i, user);
            let earlier = choose|i: int| 0 <= i < n - 1 && market.is_stake_of(i, user);
            market.lemma_one_stake_each(found, earlier);
        }
    }
}

/// The payouts are what the claims were paid: a claim that is settled adds to
/// them exactly what it pays, and leaves what any stake is due as it was.
pub proof fn law_claims_add_up(market: MarketView, user: Seq<char>)
    requires
        market.inv(),
        market.claim_result(user) is Ok,
    ensures
        market.with_receipt(user).claimed_payouts() == market.claimed_payouts() + amount_paid(
            market.claim_result(user)->Ok_0,
        ),
        forall|i: int|
            0 <= i < market.entries.len() ==> market.with_receipt(user).due(i) == market.due(i),
{
    let count = market.entries.len();
    lemma_receipt_adds_due(market, user, count);
    if market.has_stake(user) {
        let i = choose|i: int| market.is_stake_of(i, user);
        let found = choose|k: int| 0 <= k < count && market.is_stake_of(k, user);
        market.lemma_one_stake_each(i, found);
        law_claim_pays_due(market, user, i);
    }
}

/// A user without a stake in a settled pool is paid nothing, once.
pub proof fn law_claim_without_stake(market: MarketView, user: Seq<char>)
    requires
        market.pool.state != MarketState::Active,
        !market.receipts.contains(user),
        !market.has_stake(user),
    ensures
        market.claim_result(user) == Ok::<Option<i128>, crate::error::Failure>(None),
{
}

/// Conservation: whoever has claimed from a resolved pool, what they were paid
/// comes to no more than was staked in the pool.
pub proof fn law_payouts_conserve(market: MarketView)
    requires
        market.inv(),
        market.pool.state == MarketState::Resolved,
    ensures
        0 <= market.claimed_payouts() <= market.pool.total_stake,
{
    let won = market.winning_stake() as int;
    let total = market.pool.total_stake as int;
    let count = market.entries.len();
    market.lemma_stakes_nonnegative();
    if won > 0 {
        lemma_resolved_payouts(market, count);
        assert(market.entries.take(count as int) =~= market.entries);
        assert(market.claimed_payouts() <= total) by (nonlinear_arith)
            requires
                won > 0,
                won * market.claimed_payouts() <= total * won,
        ;
    } else {
        lemma_nothing_won(market, count);
        lemma_sum_nonnegative(market.stakes);
    }
}

/// What the stakes in `entries` come to in all.
pub open spec fn staked_in_all(entries: Seq<StakeEntry>) -> int
    decreases entries.len(),
{
    if entries.len() == 0 {
        0
    } else {
        staked_in_all(entries.drop_last()) + entries.last().prediction.amount
    }
}

/// The stake table of a pool holds, all outcomes together, what the stakes
/// placed in the pool come to: the pool's total is the creator's liquidity and
/// every stake placed.
pub proof fn law_total_is_liquidity_and_stakes(market: MarketView)
    requires
        market.inv(),
    ensures
        sum_stakes(market.stakes) == staked_in_all(market.entries),
        market.pool.total_stake == market.pool.initial_liquidity + staked_in_all(market.entries),
    decreases market.entries.len(),
{
    if market.entries.len() == 0 {
        assert(market.stakes =~= Seq::new(market.stakes.len(), |i: int| 0i128));
        lemma_sum_zeros(market.stakes.len());
    } else {
        let last = market.entries.last().prediction;
        let outcome = last.outcome as int;
        market.lemma_stake_within_outcome(market.entries.len() - 1);
        let rest = (market.stakes[outcome] - last.amount) as i128;
        let smaller = MarketView {
            pool: Pool {
                total_stake: (market.pool.total_stake - last.amount) as i128,
                ..market.pool
            },
            stakes: market.stakes.update(outcome, rest),
            entries: market.entries.drop_last(),
            receipts: market.receipts,
        };
        lemma_sum_update(market.stakes, outcome, rest);
        market.lemma_stakes_nonnegative();
        lemma_sum_nonnegative(market.stakes);
        law_total_is_liquidity_and_stakes(smaller);
    }
}

proof fn lemma_refunds_within_stakes(market: MarketView, n: nat)
    requires
        market.inv(),
        market.pool.state == MarketState::Canceled,
        n <= market.entries.len(),
    ensures
        0 <= market.claimed_among(n) <= staked_in_all(market.entries.take(n as int)),
    decreases n,
{
    if n > 0 {
        lemma_refunds_within_stakes(market, (n - 1) as nat);
        assert(market.entries.take(n as int).drop_last() =~= market.entries.take(n - 1));
    }
}

/// Conservation for a canceled pool: whoever has claimed, what they had back
/// comes to no more than the stakes placed in the pool, and so to no more than
/// the pool's total. The creator's liquidity is not among what is paid back.
pub proof fn law_refunds_conserve(market: MarketView)
    requires
        market.inv(),
        market.pool.state == MarketState::Canceled,
    ensures
        0 <= market.claimed_payouts() <= market.pool.total_stake - market.pool.initial_liquidity,
        market.claimed_payouts() <= market.pool.total_stake,
{
    let count = market.entries.len();
    lemma_refunds_within_stakes(market, count);
    assert(market.entries.take(count as int) =~= market.entries);
    law_total_is_liquidity_and_stakes(market);
}

/// Where nothing was staked on the winning outcome, nothing is paid.
proof fn lemma_nothing_won(market: MarketView, n: nat)
    requires
        market.inv(),
        market.pool.state == MarketState::Resolved,
        market.winning_stake() == 0,
        n <= market.entries.len(),
    ensures
        market.claimed_among(n) == 0,
    decreases n,
{
    if n > 0 {
        lemma_nothing_won(market, (n - 1) as nat);
    }
}

/// Where every winner of a resolved pool has claimed, the payouts come to all
/// that was staked in the pool but for the dust that rounding down leaves:
/// less than one unit for each winner.
pub proof fn law_dust_bounded(market: MarketView)
    requires
        market.inv(),
        market.pool.state == MarketState::Resolved,
        market.winning_stake() > 0,
        market.all_winners_claimed(),
    ensures
        market.winners() >= 1,
        0 <= market.pool.total_stake - market.claimed_payouts() < market.winners(),
{
    let won = market.winning_stake() as int;
    let total = market.pool.total_stake as int;
    let count = market.entries.len();
    let paid = market.claimed_payouts();
    let winners = market.winners() as int;
    lemma_resolved_payouts(market, count);
    law_payouts_conserve(market);
    assert(market.entries.take(count as int) =~= market.entries);
    if winners == 0 {
        assert(0 * (won - 1) == 0) by (nonlinear_arith);
        assert(total * won - won * paid == won * (total - paid)) by (nonlinear_arith);
        assert(total - paid <= 0) by (nonlinear_arith)
            requires
                won > 0,
                won * (total - paid) <= 0,
        ;
        lemma_winners_hold_stake(market, count);
    }
    assert(total - paid < winners) by (nonlinear_arith)
        requires
            won > 0,
            winners >= 1,
            total * won - won * paid <= winners * (won - 1),
    ;
}

/// Where no stake among the first `n` is on the winning outcome, nothing among
/// them is staked on it.
proof fn lemma_winners_hold_stake(market: MarketView, n: nat)
    requires
        market.inv(),
        n <= market.entries.len(),
        market.winners_among(n) == 0,
    ensures
        staked_on(market.entries.take(n as int), market.pool.outcome as int) == 0,
    decreases n,
{
    if n > 0 {
        lemma_winners_hold_stake(market, (n - 1) as nat);
        lemma_staked_on_step(market.entries, n - 1, market.pool.outcome as int);
    }
}

} // verus!

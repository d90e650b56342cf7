//! One pool with its books: the stake table, the stakes placed, and the
//! receipts of those who have claimed.

use crate::accounts::AddressSet;
use crate::error::{Failure, Fault};
use crate::lifecycle::{
    cancel_failure, canceled_pool, resolve_failure, resolved_pool, stake_fault,
};
use crate::settlement::{claim_outcome, settle_claim};
use crate::stakes::{
    init_outcome_stakes, lemma_entry_at_most_sum, lemma_sum_update, lemma_sum_zeros, outcome_stake,
    stake_at, sum_stakes, update_outcome_stake,
};
use crate::types::{
    Address, MarketState, Pool, Prediction, MAX_INITIAL_LIQUIDITY, MAX_OPTIONS_COUNT,
    MIN_OPTIONS_COUNT,
};
use vstd::prelude::*;

verus! {

/// The stake of one user in a pool.
#[derive(Debug, PartialEq, Eq)]
pub struct StakeEntry {
    pub user: Address,
    pub prediction: Prediction,
}

/// What the stakes in `entries` on `outcome` come to.
pub open spec fn staked_on(entries: Seq<StakeEntry>, outcome: int) -> int
    decreases entries.len(),
{
    if entries.len() == 0 {
        0
    } else {
        staked_on(entries.drop_last(), outcome) + if entries.last().prediction.outcome == outcome {
            entries.last().prediction.amount as int
        } else {
            0
        }
    }
}

/// Stakes of more than nothing come to no less than nothing.
pub proof fn lemma_staked_on_nonnegative(entries: Seq<StakeEntry>, outcome: int)
    requires
        forall|i: int| 0 <= i < entries.len() ==> (#[trigger] entries[i]).prediction.amount > 0,
    ensures
        staked_on(entries, outcome) >= 0,
    decreases entries.len(),
{
    if entries.len() > 0 {
        lemma_staked_on_nonnegative(entries.drop_last(), outcome);
    }
}

/// A pool with its books, as plain mathematics.
#[verifier::ext_equal]
pub struct MarketView {
    pub pool: Pool,
    /// For each outcome, what is staked on it.
    pub stakes: Seq<i128>,
    /// The stakes placed, oldest first: one for each user who staked.
    pub entries: Seq<StakeEntry>,
    /// The users who have claimed, by the text that names them.
    pub receipts: Set<Seq<char>>,
}

impl MarketView {
    /// Whether `entries[i]` is the stake of `user`.
    pub open spec fn is_stake_of(self, i: int, user: Seq<char>) -> bool {
        0 <= i < self.entries.len() && self.entries[i].user@ == user
    }

    /// Whether `user` has a stake in the pool.
    pub open spec fn has_stake(self, user: Seq<char>) -> bool {
        exists|i: int| self.is_stake_of(i, user)
    }

    /// The stake of `user` in the pool, if there is one.
    pub open spec fn prediction_of(self, user: Seq<char>) -> Option<Prediction> {
        if self.has_stake(user) {
            Some(self.entries[choose|i: int| self.is_stake_of(i, user)].prediction)
        } else {
            None
        }
    }

    /// What was staked on the pool's outcome.
    pub open spec fn winning_stake(self) -> i128 {
        stake_at(self.stakes, self.pool.outcome as int)
    }

    /// What holds of the books of every pool.
    ///
    /// The pool's settings are within their limits, and its flags say what its
    /// state says. Each user has at most one stake, of more than nothing and on
    /// an outcome that the pool offers. The stake table holds for each outcome
    /// what the stakes on it come to, and the pool's total is the creator's
    /// liquidity and everything in the table.
    pub open spec fn inv(self) -> bool {
        &&& MIN_OPTIONS_COUNT <= self.pool.options_count <= MAX_OPTIONS_COUNT
        &&& self.stakes.len() == self.pool.options_count
        &&& 0 <= self.pool.initial_liquidity <= MAX_INITIAL_LIQUIDITY
        &&& self.pool.resolved == (self.pool.state == MarketState::Resolved)
        &&& self.pool.canceled == (self.pool.state == MarketState::Canceled)
        &&& self.pool.outcome < self.pool.options_count
        &&& forall|i: int|
            0 <= i < self.entries.len() ==> (#[trigger] self.entries[i]).prediction.amount > 0
                && self.entries[i].prediction.outcome < self.pool.options_count
        &&& forall|i: int, j: int|
            0 <= i < j < self.entries.len() ==> self.entries[i].user@ != self.entries[j].user@
        &&& forall|outcome: int|
            0 <= outcome < self.stakes.len() ==> #[trigger] self.stakes[outcome] == staked_on(
                self.entries,
                outcome,
            )
        &&& self.pool.total_stake == self.pool.initial_liquidity + sum_stakes(self.stakes)
    }

    /// The books of a pool that was just opened.
    pub open spec fn opened(pool: Pool) -> MarketView {
        MarketView {
            pool,
            stakes: Seq::new(pool.options_count as nat, |i: int| 0i128),
            entries: Seq::empty(),
            receipts: Set::empty(),
        }
    }

    /// Why the pool does not take a stake of `amount` on `outcome` from `user` at
    /// time `now`, if it does not.
    pub open spec fn place_fault(
        self,
        user: Seq<char>,
        amount: i128,
        outcome: u32,
        now: u64,
    ) -> Option<Fault> {
        stake_fault(self.pool, self.has_stake(user), amount, outcome, now)
    }

    /// The books once `user` has staked `amount` on `outcome`.
    pub open spec fn with_stake(self, user: Address, amount: i128, outcome: u32) -> MarketView {
        MarketView {
            pool: Pool { total_stake: (self.pool.total_stake + amount) as i128, ..self.pool },
            stakes: self.stakes.update(
                outcome as int,
                (self.stakes[outcome as int] + amount) as i128,
            ),
            entries: self.entries.push(
                StakeEntry { user, prediction: Prediction { amount, outcome } },
            ),
            receipts: self.receipts,
        }
    }

    /// What a claim by `user` comes to: the amount to pay, if any, or why the
    /// claim is refused.
    pub open spec fn claim_result(self, user: Seq<char>) -> Result<Option<i128>, Failure> {
        claim_outcome(
            self.pool,
            self.receipts.contains(user),
            self.prediction_of(user),
            self.winning_stake(),
        )
    }

    /// The books once `user` has claimed.
    pub open spec fn with_receipt(self, user: Seq<char>) -> MarketView {
        MarketView { receipts: self.receipts.insert(user), ..self }
    }

    /// The books with the pool replaced by `pool`.
    pub open spec fn with_pool(self, pool: Pool) -> MarketView {
        MarketView { pool, ..self }
    }

    /// The books of a pool that was opened within the limits are in order.
    pub proof fn lemma_opened_inv(pool: Pool)
        requires
            MIN_OPTIONS_COUNT <= pool.options_count <= MAX_OPTIONS_COUNT,
            0 <= pool.initial_liquidity <= MAX_INITIAL_LIQUIDITY,
            pool.total_stake == pool.initial_liquidity,
            pool.state == MarketState::Active,
            !pool.resolved,
            !pool.canceled,
            pool.outcome == 0,
        ensures
            MarketView::opened(pool).inv(),
    {
        lemma_sum_zeros(pool.options_count as nat);
    }

    /// Booking a stake that the pool takes leaves the books in order.
    pub proof fn lemma_with_stake_inv(self, user: Address, amount: i128, outcome: u32, now: u64)
        requires
            self.inv(),
            self.place_fault(user@, amount, outcome, now) is None,
        ensures
            self.with_stake(user, amount, outcome).inv(),
            self.stakes[outcome as int] + amount <= i128::MAX,
            self.with_stake(user, amount, outcome).has_stake(user@),
            forall|other: Seq<char>|
                self.has_stake(other) ==> self.with_stake(user, amount, outcome).has_stake(other),
    {
        let after = self.with_stake(user, amount, outcome);
        self.lemma_stakes_nonnegative();
        lemma_entry_at_most_sum(self.stakes, outcome as int);
        lemma_sum_update(
            self.stakes,
            outcome as int,
            (self.stakes[outcome as int] + amount) as i128,
        );
        assert(after.entries.drop_last() =~= self.entries);
        assert forall|i: int, j: int|
            0 <= i < j < after.entries.len() implies after.entries[i].user@
            != after.entries[j].user@ by {
            if j == self.entries.len() {
                assert(!self.is_stake_of(i, user@));
            }
        }
        assert(after.is_stake_of(self.entries.len() as int, user@));
        assert forall|other: Seq<char>| self.has_stake(other) implies after.has_stake(other) by {
            let i = choose|i: int| self.is_stake_of(i, other);
            assert(after.is_stake_of(i, other));
        }
    }

    /// Two places in the books that hold a stake of the same user are one place.
    pub proof fn lemma_one_stake_each(self, i: int, j: int)
        requires
            self.inv(),
            0 <= i < self.entries.len(),
            0 <= j < self.entries.len(),
            self.entries[i].user@ == self.entries[j].user@,
        ensures
            i == j,
    {
    }

    /// Books that hold the same stakes have the same stake for every user.
    pub proof fn lemma_same_entries(self, other: MarketView)
        requires
            self.inv(),
            self.entries == other.entries,
        ensures
            forall|user: Seq<char>| self.has_stake(user) == other.has_stake(user),
            forall|user: Seq<char>| self.prediction_of(user) == other.prediction_of(user),
    {
        assert forall|user: Seq<char>| self.has_stake(user) == other.has_stake(user)
            && self.prediction_of(user) == other.prediction_of(user) by {
            if self.has_stake(user) {
                let i = choose|i: int| self.is_stake_of(i, user);
                assert(other.is_stake_of(i, user));
                let j = choose|j: int| other.is_stake_of(j, user);
                self.lemma_one_stake_each(i, j);
            }
            if other.has_stake(user) {
                let j = choose|j: int| other.is_stake_of(j, user);
                assert(self.is_stake_of(j, user));
            }
        }
    }

    /// Resolving and canceling leave the books in order.
    pub proof fn lemma_settled_inv(self, delay: u64, outcome: u32, now: u64)
        requires
            self.inv(),
        ensures
            resolve_failure(self.pool, delay, outcome, now) is None ==> self.with_pool(
                resolved_pool(self.pool, outcome),
            ).inv(),
            cancel_failure(self.pool) is None ==> self.with_pool(canceled_pool(self.pool)).inv(),
            forall|user: Seq<char>| self.with_receipt(user).inv(),
    {
    }

    /// No stake is larger than what is staked on its outcome, and that is no
    /// more than the pool's total.
    pub proof fn lemma_stake_within_outcome(self, i: int)
        requires
            self.inv(),
            0 <= i < self.entries.len(),
        ensures
            ({
                let stake = self.entries[i].prediction;
                0 < stake.amount <= self.stakes[stake.outcome as int] <= self.pool.total_stake
            }),
    {
        let outcome = self.entries[i].prediction.outcome as int;
        lemma_stake_at_most_staked(self.entries, i);
        self.lemma_stakes_nonnegative();
        lemma_entry_at_most_sum(self.stakes, outcome);
    }

    /// No entry of the stake table is negative.
    pub proof fn lemma_stakes_nonnegative(self)
        requires
            self.inv(),
        ensures
            forall|outcome: int| 0 <= outcome < self.stakes.len() ==> self.stakes[outcome] >= 0,
    {
        assert forall|outcome: int| 0 <= outcome < self.stakes.len() implies self.stakes[outcome]
            >= 0 by {
            lemma_staked_on_nonnegative(self.entries, outcome);
        }
    }
}

/// A stake is no more than what is staked on its outcome.
pub proof fn lemma_stake_at_most_staked(entries: Seq<StakeEntry>, i: int)
    requires
        0 <= i < entries.len(),
        forall|k: int| 0 <= k < entries.len() ==> (#[trigger] entries[k]).prediction.amount > 0,
    ensures
        entries[i].prediction.amount <= staked_on(entries, entries[i].prediction.outcome as int),
    decreases entries.len(),
{
    let outcome = entries[i].prediction.outcome as int;
    let front = entries.drop_last();
    lemma_staked_on_nonnegative(front, outcome);
    if i < front.len() {
        lemma_stake_at_most_staked(front, i);
    }
}

/// One pool with its books.
pub struct Market {
    pool: Pool,
    stakes: Vec<i128>,
    entries: Vec<StakeEntry>,
    receipts: AddressSet,
}

impl View for Market {
    type V = MarketView;

    closed spec fn view(&self) -> MarketView {
        MarketView {
            pool: self.pool,
            stakes: self.stakes@,
            entries: self.entries@,
            receipts: self.receipts@,
        }
    }
}

impl Market {
    /// The books are in order.
    pub closed spec fn wf(&self) -> bool {
        self.receipts.wf() && self@.inv()
    }

    /// Books that are in order hold what holds of the books of every pool.
    pub proof fn lemma_wf(&self)
        requires
            self.wf(),
        ensures
            self@.inv(),
    {
    }

    /// Opens the books of a new pool.
    pub fn open(pool: Pool) -> (market: Market)
        requires
            MarketView::opened(pool).inv(),
        ensures
            market.wf(),
            market@ == MarketView::opened(pool),
    {
        let stakes = init_outcome_stakes(pool.options_count);
        let market = Market { pool, stakes, entries: Vec::new(), receipts: AddressSet::new() };
        market
    }

    /// The pool.
    pub fn pool(&self) -> (pool: &Pool)
        ensures
            *pool == self@.pool,
    {
        &self.pool
    }

    /// The stake table.
    pub fn stakes(&self) -> (stakes: &Vec<i128>)
        ensures
            stakes@ == self@.stakes,
    {
        &self.stakes
    }

    /// What was staked on the pool's outcome.
    pub fn winning_stake(&self) -> (stake: i128)
        ensures
            stake == self@.winning_stake(),
    {
        outcome_stake(&self.stakes, self.pool.outcome)
    }

    fn find(&self, user: &Address) -> (found: Option<usize>)
        requires
            self.wf(),
        ensures
            match found {
                Some(i) => self@.is_stake_of(i as int, user@) && self@.prediction_of(user@) == Some(
                    self@.entries[i as int].prediction,
                ),
                None => !self@.has_stake(user@),
            },
    {
        let mut i: usize = 0;
        while i < self.entries.len()
            invariant
                self.wf(),
                i <= self.entries@.len(),
                forall|j: int| 0 <= j < i ==> !self@.is_stake_of(j, user@),
            decreases self.entries@.len() - i,
        {
            if self.entries[i].user.same(user) {
                assert(self@.is_stake_of(i as int, user@));
                return Some(i);
            }
            i = i + 1;
        }
        None
    }

    /// The stake of `user` in the pool, if there is one.
    pub fn prediction_of(&self, user: &Address) -> (stake: Option<Prediction>)
        requires
            self.wf(),
        ensures
            stake == self@.prediction_of(user@),
    {
        match self.find(user) {
            Some(i) => Some(self.entries[i].prediction),
            None => None,
        }
    }

    /// Whether `user` has claimed from the pool.
    pub fn has_claimed(&self, user: &Address) -> (claimed: bool)
        ensures
            claimed == self@.receipts.contains(user@),
    {
        self.receipts.contains(user)
    }

    /// Whether the pool would take a stake of `amount` on `outcome` from `user`
    /// at time `now`.
    pub fn check_place(
        &self,
        user: &Address,
        amount: i128,
        outcome: u32,
        now: u64,
    ) -> (checked: Result<(), Fault>)
        requires
            self.wf(),
        ensures
            checked == (match self@.place_fault(user@, amount, outcome, now) {
                Some(fault) => Err::<(), Fault>(fault),
                None => Ok(()),
            }),
    {
        let staked = self.find(user).is_some();
        match self.pool.check_stake(staked, amount, outcome, now) {
            Err(fault) => Err(fault),
            Ok(_) => Ok(()),
        }
    }

    /// Books the stake of `amount` that `user` places on `outcome` at time
    /// `now`, or says why the pool does not take it and leaves the books as they
    /// are.
    pub fn place(
        &mut self,
        user: &Address,
        amount: i128,
        outcome: u32,
        now: u64,
    ) -> (placed: Result<(), Fault>)
        requires
            old(self).wf(),
        ensures
            final(self).wf(),
            placed == (match old(self)@.place_fault(user@, amount, outcome, now) {
                Some(fault) => Err::<(), Fault>(fault),
                None => Ok(()),
            }),
            final(self)@ == (if placed is Ok {
                old(self)@.with_stake(*user, amount, outcome)
            } else {
                old(self)@
            }),
    {
        if let Err(fault) = self.check_place(user, amount, outcome, now) {
            return Err(fault);
        }
        let ghost before = self@;
        proof {
            before.lemma_with_stake_inv(*user, amount, outcome, now);
        }
        if let Err(fault) = update_outcome_stake(&mut self.stakes, outcome, amount) {
            return Err(fault);
        }
        self.pool.total_stake = self.pool.total_stake + amount;
        self.entries.push(
            StakeEntry { user: user.clone(), prediction: Prediction { amount, outcome } },
        );
        Ok(())
    }

    /// Settles the claim of `user`. A claim that pays, or comes to nothing,
    /// leaves a receipt; a claim that is refused leaves the books as they are.
    pub fn claim(&mut self, user: &Address) -> (settled: Result<Option<i128>, Failure>)
        requires
            old(self).wf(),
        ensures
            final(self).wf(),
            settled == old(self)@.claim_result(user@),
            final(self)@ == (if settled is Ok {
                old(self)@.with_receipt(user@)
            } else {
                old(self)@
            }),
    {
        let claimed = self.receipts.contains(user);
        let stake = self.prediction_of(user);
        let winning_stake = self.winning_stake();
        let settled = settle_claim(&self.pool, claimed, stake, winning_stake);
        if settled.is_ok() {
            self.receipts.insert(user);
        }
        settled
    }

    /// Resolves the pool to `outcome`, or says why it cannot be resolved.
    pub fn resolve(&mut self, delay: u64, outcome: u32, now: u64) -> (done: Result<(), Failure>)
        requires
            old(self).wf(),
        ensures
            final(self).wf(),
            done == (match resolve_failure(old(self)@.pool, delay, outcome, now) {
                Some(failure) => Err::<(), Failure>(failure),
                None => Ok(()),
            }),
            final(self)@ == (if done is Ok {
                old(self)@.with_pool(resolved_pool(old(self)@.pool, outcome))
            } else {
                old(self)@
            }),
    {
        self.pool.resolve(delay, outcome, now)
    }

    /// Cancels the pool, or says why it cannot be canceled.
    pub fn cancel(&mut self) -> (done: Result<(), Failure>)
        requires
            old(self).wf(),
        ensures
            final(self).wf(),
            done == (match cancel_failure(old(self)@.pool) {
                Some(failure) => Err::<(), Failure>(failure),
                None => Ok(()),
            }),
            final(self)@ == (if done is Ok {
                old(self)@.with_pool(canceled_pool(old(self)@.pool))
            } else {
                old(self)@
            }),
    {
        self.pool.cancel()
    }
}

} // verus!

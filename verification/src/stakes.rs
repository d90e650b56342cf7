//! The stake table of a pool: for each outcome, everything staked on it so far.
//!
//! Storage may hold the table in two forms at once: whole, under one key, and
//! outcome by outcome, each stake under a key of its own. The whole table is
//! the one that is read; the other is read only where the whole table was
//! never written. Every stake is written in both forms, so that they never say
//! different things.

use crate::error::Fault;
use vstd::prelude::*;

verus! {

/// The sum of all entries of a stake table.
pub open spec fn sum_stakes(stakes: Seq<i128>) -> int
    decreases stakes.len(),
{
    if stakes.len() == 0 {
        0
    } else {
        sum_stakes(stakes.drop_last()) + stakes.last()
    }
}

/// What the table holds for `outcome`: zero for an outcome it has no entry for.
pub open spec fn stake_at(stakes: Seq<i128>, outcome: int) -> i128 {
    if 0 <= outcome < stakes.len() {
        stakes[outcome]
    } else {
        0
    }
}

/// The table that `scalars` stands for, where each outcome's stake was kept
/// under a key of its own: an outcome that was never written holds zero.
pub open spec fn table_of_scalars(scalars: Seq<Option<i128>>) -> Seq<i128> {
    Seq::new(
        scalars.len(),
        |i: int|
            match scalars[i] {
                Some(stake) => stake,
                None => 0i128,
            },
    )
}

/// Changing one entry changes the sum by as much.
pub proof fn lemma_sum_update(stakes: Seq<i128>, at: int, stake: i128)
    requires
        0 <= at < stakes.len(),
    ensures
        sum_stakes(stakes.update(at, stake)) == sum_stakes(stakes) - stakes[at] + stake,
    decreases stakes.len(),
{
    let changed = stakes.update(at, stake);
    if at == stakes.len() - 1 {
        assert(changed.drop_last() =~= stakes.drop_last());
    } else {
        assert(changed.drop_last() =~= stakes.drop_last().update(at, stake));
        lemma_sum_update(stakes.drop_last(), at, stake);
    }
}

/// A table of zeros sums to zero.
pub proof fn lemma_sum_zeros(count: nat)
    ensures
        sum_stakes(Seq::new(count, |i: int| 0i128)) == 0,
    decreases count,
{
    if count > 0 {
        assert(Seq::new(count, |i: int| 0i128).drop_last() =~= Seq::new(
            (count - 1) as nat,
            |i: int| 0i128,
        ));
        lemma_sum_zeros((count - 1) as nat);
    }
}

/// A table without negative entries has no negative sum.
pub proof fn lemma_sum_nonnegative(stakes: Seq<i128>)
    requires
        forall|i: int| 0 <= i < stakes.len() ==> stakes[i] >= 0,
    ensures
        sum_stakes(stakes) >= 0,
    decreases stakes.len(),
{
    if stakes.len() > 0 {
        lemma_sum_nonnegative(stakes.drop_last());
    }
}

/// No entry of a table without negative entries is larger than its sum.
pub proof fn lemma_entry_at_most_sum(stakes: Seq<i128>, at: int)
    requires
        0 <= at < stakes.len(),
        forall|i: int| 0 <= i < stakes.len() ==> stakes[i] >= 0,
    ensures
        stakes[at] <= sum_stakes(stakes),
    decreases stakes.len(),
{
    let front = stakes.drop_last();
    lemma_sum_nonnegative(front);
    if at < front.len() {
        lemma_entry_at_most_sum(front, at);
    }
}

/// The stake table of a pool that nobody has staked in: zero for each of the
/// `options_count` outcomes.
pub fn init_outcome_stakes(options_count: u32) -> (stakes: Vec<i128>)
    ensures
        stakes@ == Seq::new(options_count as nat, |i: int| 0i128),
{
    let mut stakes: Vec<i128> = Vec::new();
    let mut i: u32 = 0;
    while i < options_count
        invariant
            i <= options_count,
            stakes@ == Seq::new(i as nat, |k: int| 0i128),
        decreases options_count - i,
    {
        stakes.push(0);
        i = i + 1;
    }
    stakes
}

/// The stake table of a pool, from what storage holds of it. The table kept
/// whole is taken where there is one. Where there is none, the table is rebuilt
/// from the stakes kept one by one, `scalars`, which holds for each outcome what
/// was found under its key.
pub fn get_outcome_stakes(
    batched: Option<Vec<i128>>,
    scalars: &Vec<Option<i128>>,
) -> (stakes: Vec<i128>)
    ensures
        stakes@ == match batched {
            Some(table) => table@,
            None => table_of_scalars(scalars@),
        },
{
    match batched {
        Some(table) => table,
        None => {
            let mut stakes: Vec<i128> = Vec::new();
            let mut i: usize = 0;
            while i < scalars.len()
                invariant
                    i <= scalars@.len(),
                    stakes@ == table_of_scalars(scalars@.subrange(0, i as int)),
                decreases scalars@.len() - i,
            {
                let stake = match scalars[i] {
                    Some(stake) => stake,
                    None => 0,
                };
                stakes.push(stake);
                i = i + 1;
            }
            stakes
        },
    }
}

/// The cumulative stake on `outcome`; zero for an outcome the table has no
/// entry for.
pub fn outcome_stake(stakes: &Vec<i128>, outcome: u32) -> (stake: i128)
    ensures
        stake == stake_at(stakes@, outcome as int),
{
    if (outcome as usize) < stakes.len() {
        stakes[outcome as usize]
    } else {
        0
    }
}

/// Adds `amount` to the cumulative stake on `outcome` and returns the new
/// value, which is also what the outcome's own key is to hold. The table is left
/// as it is where it has no entry for the outcome or the new value does not fit.
pub fn update_outcome_stake(
    stakes: &mut Vec<i128>,
    outcome: u32,
    amount: i128,
) -> (updated: Result<i128, Fault>)
    ensures
        updated == (if outcome >= old(stakes)@.len() {
            Err::<i128, Fault>(Fault::OutcomeOutOfRange)
        } else if old(stakes)@[outcome as int] + amount > i128::MAX || old(stakes)@[outcome as int]
            + amount < i128::MIN {
            Err(Fault::Overflow)
        } else {
            Ok((old(stakes)@[outcome as int] + amount) as i128)
        }),
        final(stakes)@ == match updated {
            Ok(stake) => old(stakes)@.update(outcome as int, stake),
            Err(_) => old(stakes)@,
        },
{
    if outcome as usize >= stakes.len() {
        return Err(Fault::OutcomeOutOfRange);
    }
    match stakes[outcome as usize].checked_add(amount) {
        None => Err(Fault::Overflow),
        Some(stake) => {
            stakes.set(outcome as usize, stake);
            Ok(stake)
        },
    }
}

/// What storage holds of the stake table of a pool.
pub struct StoredStakes {
    /// The table kept whole, where it was ever written.
    pub table: Option<Vec<i128>>,
    /// For each outcome the stake kept under its own key, where one was
    /// written.
    pub scalars: Vec<Option<i128>>,
}

impl StoredStakes {
    /// The table that is read from what is stored: the whole table where there
    /// is one, and the table rebuilt from the single stakes where there is none.
    pub open spec fn reading(self) -> Seq<i128> {
        match self.table {
            Some(table) => table@,
            None => table_of_scalars(self.scalars@),
        }
    }

    /// Whether the two forms say the same: the whole table, where there is one,
    /// holds for each outcome the stake kept under the outcome's own key, and
    /// zero for an outcome that has none.
    pub open spec fn agree(self) -> bool {
        self.table matches Some(table) ==> table@ == table_of_scalars(self.scalars@)
    }

    /// The stake table of the pool.
    pub fn read(&self) -> (stakes: Vec<i128>)
        ensures
            stakes@ == self.reading(),
    {
        let whole = match &self.table {
            Some(table) => Some(table.clone()),
            None => None,
        };
        get_outcome_stakes(whole, &self.scalars)
    }

    /// Adds `amount` to the stake on `outcome`, in both forms, and returns the
    /// new stake on the outcome. Nothing is written where the table or the
    /// single stakes have no entry for the outcome, or the new stake does not
    /// fit.
    pub fn add(&mut self, outcome: u32, amount: i128) -> (added: Result<i128, Fault>)
        ensures
            added == (if outcome >= old(self).reading().len() || outcome >= old(
                self,
            ).scalars@.len() {
                Err::<i128, Fault>(Fault::OutcomeOutOfRange)
            } else if old(self).reading()[outcome as int] + amount > i128::MAX || old(
                self,
            ).reading()[outcome as int] + amount < i128::MIN {
                Err(Fault::Overflow)
            } else {
                Ok((old(self).reading()[outcome as int] + amount) as i128)
            }),
            match added {
                Ok(stake) => {
                    &&& final(self).table matches Some(table)
                    &&& table@ == old(self).reading().update(outcome as int, stake)
                    &&& final(self).scalars@ == old(self).scalars@.update(
                        outcome as int,
                        Some(stake),
                    )
                },
                Err(_) => *final(self) == *old(self),
            },
            old(self).agree() ==> final(self).agree(),
    {
        if outcome as usize >= self.scalars.len() {
            return Err(Fault::OutcomeOutOfRange);
        }
        let mut stakes = self.read();
        match update_outcome_stake(&mut stakes, outcome, amount) {
            Err(fault) => Err(fault),
            Ok(stake) => {
                proof {
                    if old(self).agree() {
                        law_forms_agree(
                            self.scalars@,
                            old(self).reading(),
                            outcome as int,
                            stake,
                        );
                    }
                }
                self.table = Some(stakes);
                self.scalars.set(outcome as usize, Some(stake));
                Ok(stake)
            },
        }
    }
}

/// Writing both forms keeps them in step: after a stake is added, the whole
/// table and the table rebuilt from the single stakes are the same, and both
/// are the table read before with the stake added to its outcome.
pub proof fn law_forms_agree(
    scalars: Seq<Option<i128>>,
    table: Seq<i128>,
    outcome: int,
    stake: i128,
)
    requires
        table == table_of_scalars(scalars),
        0 <= outcome < table.len(),
    ensures
        table.update(outcome, stake) == table_of_scalars(scalars.update(outcome, Some(stake))),
{
}

} // verus!

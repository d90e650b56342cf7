//! Append-only lists of pool ids, one per key, and how they are read by page.
//!
//! The contract keeps two such indices: for each user the pools they staked in,
//! and for each category the pools created under it.

use crate::error::Fault;
use vstd::prelude::*;

verus! {

/// The length of a list of `count` entries once one more is appended, where the
/// list's counter can still count it.
pub fn next_count(count: u32) -> (next: Result<u32, Fault>)
    ensures
        next == (if count >= u32::MAX {
            Err::<u32, Fault>(Fault::Overflow)
        } else {
            Ok((count + 1) as u32)
        }),
{
    match count.checked_add(1) {
        Some(next) => Ok(next),
        None => Err(Fault::Overflow),
    }
}

/// The number of pools once one more is created after `count`, where the
/// counter of pools can still count it. The new pool has the id `count`.
pub fn next_pool_id(count: u64) -> (next: Result<u64, Fault>)
    ensures
        next == (if count >= u64::MAX {
            Err::<u64, Fault>(Fault::Overflow)
        } else {
            Ok((count + 1) as u64)
        }),
{
    match count.checked_add(1) {
        Some(next) => Ok(next),
        None => Err(Fault::Overflow),
    }
}

/// The page that walks forward through `list`: up to `limit` entries from
/// position `offset` on, oldest first. Empty where the offset is at or past the
/// end, or the limit is zero.
pub open spec fn forward_page(list: Seq<u64>, offset: int, limit: int) -> Seq<u64> {
    if offset < 0 || offset >= list.len() || limit <= 0 {
        Seq::empty()
    } else if offset + limit <= list.len() {
        list.subrange(offset, offset + limit)
    } else {
        list.subrange(offset, list.len() as int)
    }
}

/// The page that walks backward through `list`: up to `limit` entries, newest
/// first, after skipping the `offset` newest. Empty where the offset is at or
/// past the number of entries, or the limit is zero.
pub open spec fn backward_page(list: Seq<u64>, offset: int, limit: int) -> Seq<u64> {
    if offset < 0 || offset >= list.len() || limit <= 0 {
        Seq::empty()
    } else {
        Seq::new(
            (if limit <= list.len() - offset {
                limit
            } else {
                list.len() - offset
            }) as nat,
            |i: int| list[list.len() - 1 - offset - i],
        )
    }
}

/// The positions that a forward page of a list of `count` entries covers:
/// `start .. end`, an empty range where the page is empty.
pub fn forward_window(count: u32, offset: u32, limit: u32) -> (window: (u32, u32))
    ensures
        window.0 <= window.1 <= count,
        forall|list: Seq<u64>|
            list.len() == count ==> #[trigger] forward_page(list, offset as int, limit as int)
                == list.subrange(window.0 as int, window.1 as int),
{
    if offset >= count || limit == 0 {
        assert forall|list: Seq<u64>| list.len() == count implies #[trigger] forward_page(
            list,
            offset as int,
            limit as int,
        ) == list.subrange(0, 0) by {
        }
        (0, 0)
    } else {
        let reach = offset.saturating_add(limit);
        let end = if reach < count {
            reach
        } else {
            count
        };
        (offset, end)
    }
}

/// The positions that a backward page of a list of `count` entries covers: it
/// starts at position `first` and takes `taken` entries, walking down. `taken`
/// is zero where the page is empty.
pub fn backward_window(count: u32, offset: u32, limit: u32) -> (window: (u32, u32))
    ensures
        ({
            let (first, taken) = window;
            &&& taken <= count
            &&& taken > 0 ==> first < count && taken <= first + 1
            &&& forall|list: Seq<u64>|
                list.len() == count ==> #[trigger] backward_page(list, offset as int, limit as int)
                    == Seq::new(taken as nat, |i: int| list[first - i])
        }),
{
    if offset >= count || limit == 0 {
        assert forall|list: Seq<u64>| list.len() == count implies #[trigger] backward_page(
            list,
            offset as int,
            limit as int,
        ) == Seq::new(0nat, |i: int| list[0 - i]) by {
        }
        (0, 0)
    } else {
        let left = count - offset;
        let first = left - 1;
        let taken = if limit < left {
            limit
        } else {
            left
        };
        assert forall|list: Seq<u64>| list.len() == count implies #[trigger] backward_page(
            list,
            offset as int,
            limit as int,
        ) == Seq::new(taken as nat, |i: int| list[first - i]) by {
            assert(backward_page(list, offset as int, limit as int) =~= Seq::new(
                taken as nat,
                |i: int| list[first - i],
            ));
        }
        (first, taken)
    }
}

/// The forward page of `list`.
pub fn page_forward(list: &Vec<u64>, offset: u32, limit: u32) -> (page: Vec<u64>)
    ensures
        page@ == forward_page(list@, offset as int, limit as int),
{
    let mut page: Vec<u64> = Vec::new();
    let count = list.len();
    if offset as usize >= count || limit == 0 {
        return page;
    }
    let start = offset as usize;
    let end = if (limit as usize) < count - start {
        start + limit as usize
    } else {
        count
    };
    let mut i: usize = start;
    while i < end
        invariant
            start <= i <= end <= list.len(),
            page@ == list@.subrange(start as int, i as int),
        decreases end - i,
    {
        page.push(list[i]);
        i = i + 1;
    }
    page
}

/// The backward page of `list`.
pub fn page_backward(list: &Vec<u64>, offset: u32, limit: u32) -> (page: Vec<u64>)
    ensures
        page@ == backward_page(list@, offset as int, limit as int),
{
    let mut page: Vec<u64> = Vec::new();
    let count = list.len();
    if offset as usize >= count || limit == 0 {
        return page;
    }
    let left = count - offset as usize;
    let taken = if (limit as usize) < left {
        limit as usize
    } else {
        left
    };
    let mut i: usize = 0;
    while i < taken
        invariant
            i <= taken <= left,
            left <= list.len(),
            page@ == Seq::new(i as nat, |k: int| list@[left - 1 - k]),
        decreases taken - i,
    {
        page.push(list[left - 1 - i]);
        i = i + 1;
    }
    page
}

/// One key of an index with the pools listed under it, oldest first.
pub struct IndexEntry {
    pub key: String,
    pub pools: Vec<u64>,
}

/// For each key the list of pool ids appended under it, in the order in which
/// they came. Nothing is ever removed. A list holds at most `u32::MAX` ids.
pub struct PoolIndex {
    entries: Vec<IndexEntry>,
}

impl PoolIndex {
    spec fn holds(&self, i: int, key: Seq<char>) -> bool {
        0 <= i < self.entries@.len() && self.entries@[i].key@ == key
    }

    /// No key stands twice, and no list has outgrown its counter.
    pub closed spec fn wf(&self) -> bool {
        &&& forall|i: int, j: int|
            0 <= i < j < self.entries@.len() ==> self.entries@[i].key@ != self.entries@[j].key@
        &&& forall|i: int|
            0 <= i < self.entries@.len() ==> (#[trigger] self.entries@[i]).pools@.len() <= u32::MAX
    }

    /// The pools listed under `key`, oldest first; empty for a key never used.
    pub closed spec fn listed(&self, key: Seq<char>) -> Seq<u64> {
        if exists|i: int| self.holds(i, key) {
            self.entries@[choose|i: int| self.holds(i, key)].pools@
        } else {
            Seq::empty()
        }
    }

    /// The index as a map from every key to its list.
    pub open spec fn view(&self) -> Map<Seq<char>, Seq<u64>> {
        Map::total(|key: Seq<char>| self.listed(key))
    }

    /// The empty index.
    pub fn new() -> (index: PoolIndex)
        ensures
            index.wf(),
            forall|key: Seq<char>| index.listed(key) == Seq::<u64>::empty(),
    {
        PoolIndex { entries: Vec::new() }
    }

    fn position(&self, key: &String) -> (found: Option<usize>)
        requires
            self.wf(),
        ensures
            match found {
                Some(i) => {
                    &&& self.holds(i as int, key@)
                    &&& self.listed(key@) == self.entries@[i as int].pools@
                },
                None => {
                    &&& self.listed(key@) == Seq::<u64>::empty()
                    &&& forall|i: int| !self.holds(i, key@)
                },
            },
    {
        let mut i: usize = 0;
        while i < self.entries.len()
            invariant
                self.wf(),
                i <= self.entries@.len(),
                forall|j: int| 0 <= j < i ==> !self.holds(j, key@),
            decreases self.entries@.len() - i,
        {
            if self.entries[i].key == *key {
                assert(self.holds(i as int, key@));
                return Some(i);
            }
            i = i + 1;
        }
        None
    }

    /// How many pools are listed under `key`.
    pub fn count(&self, key: &String) -> (count: u32)
        requires
            self.wf(),
        ensures
            count == self.listed(key@).len(),
    {
        match self.position(key) {
            Some(i) => self.entries[i].pools.len() as u32,
            None => 0,
        }
    }

    /// Appends `pool_id` to the list of `key`. Does nothing, and says so, where
    /// the list is full.
    pub fn append(&mut self, key: &String, pool_id: u64) -> (appended: bool)
        requires
            old(self).wf(),
        ensures
            final(self).wf(),
            appended == (old(self).listed(key@).len() < u32::MAX),
            forall|other: Seq<char>|
                final(self).listed(other) == if appended && other == key@ {
                    old(self).listed(other).push(pool_id)
                } else {
                    old(self).listed(other)
                },
    {
        match self.position(key) {
            Some(i) => {
                if self.entries[i].pools.len() >= u32::MAX as usize {
                    return false;
                }
                self.entries[i].pools.push(pool_id);
                proof {
                    let before = *old(self);
                    let after = *self;
                    assert forall|other: Seq<char>| after.listed(other) == if other == key@ {
                        before.listed(other).push(pool_id)
                    } else {
                        before.listed(other)
                    } by {
                        if exists|j: int| before.holds(j, other) {
                            let b = choose|j: int| before.holds(j, other);
                            assert(after.holds(b, other));
                        } else {
                            assert forall|j: int| !after.holds(j, other) by {
                                assert(!before.holds(j, other));
                            }
                        }
                    }
                }
                true
            },
            None => {
                let mut pools: Vec<u64> = Vec::new();
                pools.push(pool_id);
                self.entries.push(IndexEntry { key: key.clone(), pools });
                proof {
                    let before = *old(self);
                    let after = *self;
                    let last = before.entries@.len() as int;
                    assert(after.holds(last, key@));
                    assert forall|j: int| 0 <= j < last implies #[trigger] after.entries@[j]
                        == before.entries@[j] && !before.holds(j, key@) by {}
                    assert forall|other: Seq<char>| after.listed(other) == if other == key@ {
                        before.listed(other).push(pool_id)
                    } else {
                        before.listed(other)
                    } by {
                        if other == key@ {
                            assert(after.entries@[last].pools@ =~= Seq::<u64>::empty().push(
                                pool_id,
                            ));
                        } else if exists|j: int| before.holds(j, other) {
                            let b = choose|j: int| before.holds(j, other);
                            assert(after.holds(b, other));
                        } else {
                            assert forall|j: int| !after.holds(j, other) by {
                                if j != last {
                                    assert(!before.holds(j, other));
                                }
                            }
                        }
                    }
                }
                true
            },
        }
    }

    /// The forward page of the list of `key`.
    pub fn page_forward(&self, key: &String, offset: u32, limit: u32) -> (page: Vec<u64>)
        requires
            self.wf(),
        ensures
            page@ == forward_page(self.listed(key@), offset as int, limit as int),
    {
        match self.position(key) {
            Some(i) => page_forward(&self.entries[i].pools, offset, limit),
            None => Vec::new(),
        }
    }

    /// The backward page of the list of `key`.
    pub fn page_backward(&self, key: &String, offset: u32, limit: u32) -> (page: Vec<u64>)
        requires
            self.wf(),
        ensures
            page@ == backward_page(self.listed(key@), offset as int, limit as int),
    {
        match self.position(key) {
            Some(i) => page_backward(&self.entries[i].pools, offset, limit),
            None => Vec::new(),
        }
    }
}

} // verus!

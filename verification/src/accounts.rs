//! A set of addresses.
//!
//! The contract keeps two kinds: the assets that stakes may be paid in, and for
//! each pool the users who have claimed from it.

use crate::types::Address;
use vstd::prelude::*;

verus! {

/// A finite set of addresses. Two addresses are the same member where they name
/// the same account.
pub struct AddressSet {
    members: Vec<Address>,
}

impl AddressSet {
    spec fn holds(&self, i: int, key: Seq<char>) -> bool {
        0 <= i < self.members@.len() && self.members@[i]@ == key
    }

    /// No member stands twice.
    pub closed spec fn wf(&self) -> bool {
        forall|i: int, j: int|
            0 <= i < j < self.members@.len() ==> self.members@[i]@ != self.members@[j]@
    }

    /// Whether the account named `key` is a member.
    pub closed spec fn has(&self, key: Seq<char>) -> bool {
        exists|i: int| self.holds(i, key)
    }

    /// The members, by the text that names them.
    pub open spec fn view(&self) -> Set<Seq<char>> {
        Set::new(|key: Seq<char>| self.has(key))
    }

    /// The empty set.
    pub fn new() -> (set: AddressSet)
        ensures
            set.wf(),
            forall|key: Seq<char>| !set.has(key),
    {
        AddressSet { members: Vec::new() }
    }

    fn position(&self, address: &Address) -> (found: Option<usize>)
        ensures
            match found {
                Some(i) => self.holds(i as int, address@),
                None => !self.has(address@),
            },
    {
        let mut i: usize = 0;
        while i < self.members.len()
            invariant
                i <= self.members@.len(),
                forall|j: int| 0 <= j < i ==> !self.holds(j, address@),
            decreases self.members@.len() - i,
        {
            if self.members[i].same(address) {
                return Some(i);
            }
            i = i + 1;
        }
        None
    }

    /// Whether `address` is a member.
    pub fn contains(&self, address: &Address) -> (found: bool)
        ensures
            found == self.has(address@),
    {
        self.position(address).is_some()
    }

    /// Makes `address` a member, if it is none yet.
    pub fn insert(&mut self, address: &Address)
        requires
            old(self).wf(),
        ensures
            final(self).wf(),
            forall|key: Seq<char>| final(self).has(key) == (key == address@ || old(self).has(key)),
    {
        if self.position(address).is_none() {
            self.members.push(address.clone());
            proof {
                let before = *old(self);
                let after = *self;
                let last = before.members@.len() as int;
                assert(after.holds(last, address@));
                assert forall|key: Seq<char>| after.has(key) == (key == address@ || before.has(
                    key,
                )) by {
                    if before.has(key) {
                        let i = choose|i: int| before.holds(i, key);
                        assert(after.holds(i, key));
                    }
                    if after.has(key) && key != address@ {
                        let i = choose|i: int| after.holds(i, key);
                        assert(before.holds(i, key));
                    }
                }
                assert forall|i: int, j: int|
                    0 <= i < j < after.members@.len() implies after.members@[i]@
                    != after.members@[j]@ by {
                    if j == last {
                        assert(!before.holds(i, address@));
                    }
                }
            }
        }
    }

    /// Takes `address` out of the set, if it is a member.
    pub fn remove(&mut self, address: &Address)
        requires
            old(self).wf(),
        ensures
            final(self).wf(),
            forall|key: Seq<char>| final(self).has(key) == (key != address@ && old(self).has(key)),
    {
        match self.position(address) {
            None => {},
            Some(at) => {
                self.members.remove(at);
                proof {
                    let before = *old(self);
                    let after = *self;
                    assert forall|i: int| 0 <= i < after.members@.len() implies (
                    #[trigger] after.members@[i]) == before.members@[if i < at {
                        i
                    } else {
                        i + 1
                    }] by {}
                    assert forall|key: Seq<char>| after.has(key) == (key != address@ && before.has(
                        key,
                    )) by {
                        if after.has(key) {
                            let i = choose|i: int| after.holds(i, key);
                            let from = if i < at {
                                i
                            } else {
                                i + 1
                            };
                            assert(before.holds(from, key));
                        }
                        if key != address@ && before.has(key) {
                            let i = choose|i: int| before.holds(i, key);
                            let to = if i < at {
                                i
                            } else {
                                i - 1
                            };
                            assert(after.holds(to, key));
                        }
                    }
                }
            },
        }
    }
}

} // verus!

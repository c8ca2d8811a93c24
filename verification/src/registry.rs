//! Sets of addresses that the admin manages: the aggregators, and the
//! recipients of delegated transfers that are not taxed.

use crate::text::clone_text;
use vstd::prelude::*;

verus! {

/// The addresses that occur in `list`.
pub open spec fn members_of(list: Seq<String>) -> Set<Seq<char>> {
    Set::new(
        |address: Seq<char>| exists|i: int| 0 <= i < list.len() && #[trigger] list[i]@ == address,
    )
}

/// A set of addresses.
#[derive(Debug, PartialEq, Eq)]
pub struct AddressSet {
    members: Vec<String>,
}

impl View for AddressSet {
    type V = Set<Seq<char>>;

    closed spec fn view(&self) -> Set<Seq<char>> {
        members_of(self.members@)
    }
}

impl AddressSet {
    /// The empty set.
    pub fn new() -> (set: AddressSet)
        ensures
            set@ == Set::<Seq<char>>::empty(),
    {
        let set = AddressSet { members: Vec::new() };
        assert(set@ =~= Set::<Seq<char>>::empty());
        set
    }

    /// Whether `address` is a member.
    pub fn contains(&self, address: &String) -> (found: bool)
        ensures
            found == self@.contains(address@),
    {
        let mut i: usize = 0;
        while i < self.members.len()
            invariant
                i <= self.members@.len(),
                forall|k: int| 0 <= k < i ==> (#[trigger] self.members@[k])@ != address@,
            decreases self.members@.len() - i,
        {
            if self.members[i] == *address {
                return true;
            }
            i += 1;
        }
        false
    }

    /// Makes `address` a member; it stays one if it was.
    pub fn insert(&mut self, address: String)
        ensures
            final(self)@ == old(self)@.insert(address@),
    {
        if !self.contains(&address) {
            self.members.push(address);
            assert forall|a: Seq<char>| final(self)@.contains(a) == old(self)@.insert(
                address@,
            ).contains(a) by {
                let before = old(self).members@;
                let after = self.members@;
                if a == address@ {
                    assert(after[after.len() - 1]@ == a);
                } else if old(self)@.contains(a) {
                    let i = choose|i: int| 0 <= i < before.len() && (#[trigger] before[i])@ == a;
                    assert(after[i]@ == a);
                } else if self@.contains(a) {
                    let i = choose|i: int| 0 <= i < after.len() && (#[trigger] after[i])@ == a;
                    assert(before[i]@ == a);
                }
            }
            assert(self@ =~= old(self)@.insert(address@));
        } else {
            assert(self@ =~= old(self)@.insert(address@));
        }
    }

    /// Makes `address` no member; nothing changes if it was none.
    pub fn remove(&mut self, address: &String)
        ensures
            final(self)@ == old(self)@.remove(address@),
    {
        let mut kept: Vec<String> = Vec::new();
        let mut i: usize = 0;
        while i < self.members.len()
            invariant
                i <= self.members@.len(),
                members_of(kept@) == members_of(self.members@.subrange(0, i as int)).remove(
                    address@,
                ),
            decreases self.members@.len() - i,
        {
            let ghost seen = self.members@.subrange(0, i as int);
            let ghost next = self.members@.subrange(0, i + 1);
            let ghost before = kept@;
            if self.members[i] != *address {
                kept.push(clone_text(&self.members[i]));
            }
            proof {
                let member = self.members@[i as int]@;
                assert forall|a: Seq<char>| members_of(kept@).contains(a) == members_of(
                    next,
                ).remove(address@).contains(a) by {
                    if members_of(kept@).contains(a) {
                        let k = choose|k: int| 0 <= k < kept@.len() && (#[trigger] kept@[k])@ == a;
                        if k < before.len() {
                            assert(before[k]@ == a);
                            assert(members_of(before).contains(a));
                            let j = choose|j: int|
                                0 <= j < seen.len() && (#[trigger] seen[j])@ == a;
                            assert(next[j]@ == a);
                        } else {
                            assert(next[i as int]@ == a);
                        }
                    }
                    if members_of(next).remove(address@).contains(a) {
                        let j = choose|j: int| 0 <= j < next.len() && (#[trigger] next[j])@ == a;
                        if j < i {
                            assert(seen[j]@ == a);
                            assert(members_of(seen).remove(address@).contains(a));
                            let k = choose|k: int|
                                0 <= k < before.len() && (#[trigger] before[k])@ == a;
                            assert(kept@[k]@ == a);
                        } else {
                            assert(kept@[kept@.len() - 1]@ == a);
                        }
                    }
                }
                assert(members_of(kept@) =~= members_of(next).remove(address@));
            }
            i += 1;
        }
        assert(self.members@.subrange(0, i as int) =~= self.members@);
        self.members = kept;
    }
}

/// Adding an address that is a member already changes nothing: adding
/// twice gives what adding once gives.
pub proof fn lemma_insert_idempotent(set: Set<Seq<char>>, address: Seq<char>)
    ensures
        set.insert(address).insert(address) == set.insert(address),
{
    assert(set.insert(address).insert(address) =~= set.insert(address));
}

/// Removing an address that was just added, and was no member before,
/// restores the set.
pub proof fn lemma_remove_undoes_insert(set: Set<Seq<char>>, address: Seq<char>)
    requires
        !set.contains(address),
    ensures
        set.insert(address).remove(address) == set,
{
    assert(set.insert(address).remove(address) =~= set);
}

} // verus!

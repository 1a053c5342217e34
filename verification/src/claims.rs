//! One-shot settlement flags: the set of participants for whom a settlement
//! has been made. Absence means "not yet claimed"; nothing ever leaves.

use crate::account::AccountId;
use vstd::prelude::*;

verus! {

/// A set of participants that only grows.
pub struct ClaimSet {
    members: Vec<AccountId>,
}

impl View for ClaimSet {
    type V = Set<AccountId>;

    closed spec fn view(&self) -> Set<AccountId> {
        self.members@.to_set()
    }
}

impl ClaimSet {
    /// The empty set.
    pub fn new() -> (r: ClaimSet)
        ensures
            r@ == Set::<AccountId>::empty(),
    {
        let r = ClaimSet { members: Vec::new() };
        assert(r@ =~= Set::<AccountId>::empty());
        r
    }

    /// The set of the given participants; one named twice is marked once.
    pub fn from_members(members: Vec<AccountId>) -> (r: ClaimSet)
        ensures
            r@ == members@.to_set(),
    {
        ClaimSet { members }
    }

    /// The marked participants, each at least once.
    pub fn members(&self) -> (r: Vec<AccountId>)
        ensures
            r@.to_set() == self@,
    {
        let mut out: Vec<AccountId> = Vec::new();
        let mut i: usize = 0;
        while i < self.members.len()
            invariant
                i <= self.members.len(),
                out@ == self.members@.take(i as int),
            decreases self.members.len() - i,
        {
            out.push(self.members[i]);
            assert(self.members@.take(i + 1) =~= self.members@.take(i as int).push(
                self.members@[i as int],
            ));
            i += 1;
        }
        assert(self.members@.take(self.members@.len() as int) =~= self.members@);
        out
    }

    /// Whether nobody is marked.
    pub fn is_empty(&self) -> (r: bool)
        ensures
            r == (self@ == Set::<AccountId>::empty()),
    {
        let r = self.members.len() == 0;
        proof {
            if r {
                assert(self@ =~= Set::<AccountId>::empty());
            } else {
                assert(self.members@.contains(self.members@[0]));
                assert(self@.contains(self.members@[0]));
            }
        }
        r
    }

    /// Whether `who` is marked.
    pub fn contains(&self, who: AccountId) -> (r: bool)
        ensures
            r == self@.contains(who),
    {
        let mut i: usize = 0;
        while i < self.members.len()
            invariant
                i <= self.members.len(),
                forall|j: int| 0 <= j < i ==> self.members@[j] != who,
            decreases self.members.len() - i,
        {
            if self.members[i].same(&who) {
                assert(self.members@.contains(who));
                return true;
            }
            i += 1;
        }
        false
    }

    /// Marks `who`. Marking twice is the same as marking once.
    pub fn insert(&mut self, who: AccountId)
        ensures
            final(self)@ == old(self)@.insert(who),
    {
        if !self.contains(who) {
            let ghost before = self.members@;
            self.members.push(who);
            proof {
                let after = self.members@;
                assert forall|k: AccountId| after.contains(k) == (k == who || before.contains(k)) by {
                    if before.contains(k) {
                        let j = choose|j: int| 0 <= j < before.len() && before[j] == k;
                        assert(after[j] == k);
                    }
                    if k == who {
                        assert(after[before.len() as int] == k);
                    }
                }
                assert(after.to_set() =~= before.to_set().insert(who));
            }
        } else {
            assert(self@ =~= old(self)@.insert(who));
        }
    }
}

} // verus!

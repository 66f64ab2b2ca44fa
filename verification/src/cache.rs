use vstd::prelude::*;
use std::collections::HashSet;

verus! {

broadcast use vstd::std_specs::hash::group_hash_axioms;

/// The set of server identifiers the bot is currently known to be a member
/// of. It both yields the reported count (its cardinality) and deduplicates
/// incoming events: only an insert or remove that actually changes the set
/// may trigger any downstream work.
pub struct MembershipCache {
    ids: HashSet<u64>,
}

impl View for MembershipCache {
    type V = Set<u64>;

    closed spec fn view(&self) -> Set<u64> {
        self.ids@
    }
}

impl MembershipCache {
    /// An empty cache.
    pub fn new() -> (c: Self)
        ensures
            c@ == Set::<u64>::empty(),
    {
        MembershipCache { ids: HashSet::new() }
    }

    /// Current cardinality.
    pub fn len(&self) -> (n: usize)
        ensures
            n == self@.len(),
    {
        self.ids.len()
    }

    /// Adds `id`; true exactly when it was not yet a member.
    pub fn insert(&mut self, id: u64) -> (added: bool)
        ensures
            final(self)@ == old(self)@.insert(id),
            added == !old(self)@.contains(id),
    {
        self.ids.insert(id)
    }

    /// Drops `id`; true exactly when it was a member.
    pub fn remove(&mut self, id: u64) -> (removed: bool)
        ensures
            final(self)@ == old(self)@.remove(id),
            removed == old(self)@.contains(id),
    {
        self.ids.remove(&id)
    }

    /// Wholesale replacement with the identifiers in `ids`, as a full resync
    /// delivers them; duplicates collapse. Returns the new cardinality.
    pub fn reset(&mut self, ids: &Vec<u64>) -> (n: usize)
        ensures
            final(self)@ == ids@.to_set(),
            n == ids@.to_set().len(),
    {
        let ghost all = ids@;
        let mut fresh: HashSet<u64> = HashSet::new();
        let mut i: usize = 0;
        while i < ids.len()
            invariant
                i <= ids.len(),
                ids@ == all,
                fresh@ == all.take(i as int).to_set(),
            decreases ids.len() - i,
        {
            proof {
                assert(all.take(i + 1).to_set() =~= all.take(i as int).to_set().insert(
                    all[i as int],
                )) by {
                    assert forall|a: u64| all.take(i + 1).contains(a) implies all.take(
                        i as int,
                    ).to_set().insert(all[i as int]).contains(a) by {
                        let j = choose|j: int| 0 <= j < i + 1 && #[trigger] all.take(i + 1)[j] == a;
                        if j < i {
                            assert(all.take(i as int)[j] == a);
                        }
                    }
                    assert forall|a: u64|
                        all.take(i as int).to_set().insert(all[i as int]).contains(
                            a,
                        ) implies all.take(i + 1).contains(a) by {
                        if all.take(i as int).contains(a) {
                            let j = choose|j: int| 0 <= j < i && #[trigger] all.take(i as int)[j] == a;
                            assert(all.take(i + 1)[j] == a);
                        } else {
                            assert(all.take(i + 1)[i as int] == a);
                        }
                    }
                }
            }
            fresh.insert(ids[i]);
            i = i + 1;
        }
        proof {
            assert(all.take(ids@.len() as int) =~= all);
        }
        self.ids = fresh;
        self.ids.len()
    }
}

} // verus!

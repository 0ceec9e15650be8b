//! The set of consumed run ids. A run id, once consumed by a successful
//! verification, can never be consumed again: the set only grows.

use vstd::prelude::*;

verus! {

/// Folds a sequence of run ids into the set it denotes.
pub open spec fn run_ids_set(s: Seq<u64>) -> Set<u64>
    decreases s.len(),
{
    if s.len() == 0 {
        Set::empty()
    } else {
        run_ids_set(s.drop_last()).insert(s.last())
    }
}

/// The run ids already consumed by successful verifications.
pub struct RunIdSet {
    ids: Vec<u64>,
}

impl View for RunIdSet {
    type V = Set<u64>;

    closed spec fn view(&self) -> Set<u64> {
        run_ids_set(self.ids@)
    }
}

proof fn lemma_run_ids_set_members(s: Seq<u64>, x: u64)
    ensures
        run_ids_set(s).contains(x) <==> s.contains(x),
    decreases s.len(),
{
    if s.len() > 0 {
        lemma_run_ids_set_members(s.drop_last(), x);
        if s.last() == x {
        } else if s.drop_last().contains(x) {
            let i = choose|i: int| 0 <= i < s.drop_last().len() && s.drop_last()[i] == x;
            assert(s[i] == x);
        } else if s.contains(x) {
            let i = choose|i: int| 0 <= i < s.len() && s[i] == x;
            assert(0 <= i < s.len() - 1);
            assert(s.drop_last()[i] == x);
        }
    }
}

impl RunIdSet {
    /// Creates an empty set.
    pub fn new() -> (r: RunIdSet)
        ensures
            r@ == Set::<u64>::empty(),
    {
        RunIdSet { ids: Vec::new() }
    }

    /// Reports whether `id` has already been consumed. A pure read.
    pub fn contains(&self, id: u64) -> (r: bool)
        ensures
            r == self@.contains(id),
    {
        let n = self.ids.len();
        let mut i: usize = 0;
        while i < n
            invariant
                n == self.ids@.len(),
                i <= n,
                forall|k: int| 0 <= k < i ==> self.ids@[k] != id,
            decreases n - i,
        {
            if self.ids[i] == id {
                proof {
                    lemma_run_ids_set_members(self.ids@, id);
                }
                return true;
            }
            i += 1;
        }
        proof {
            lemma_run_ids_set_members(self.ids@, id);
        }
        false
    }

    /// Marks `id` as consumed. The set only grows.
    pub fn insert(&mut self, id: u64)
        ensures
            final(self)@ == old(self)@.insert(id),
    {
        let ghost pre = self.ids@;
        self.ids.push(id);
        proof {
            assert(self.ids@.drop_last() =~= pre);
        }
    }
}

} // verus!

//! The contribution registry: approved contributions keyed by contribution
//! id. Approval inserts a record exactly once per id; settlement flips its
//! claimed flag exactly once.

use vstd::prelude::*;

use crate::types::Contribution;

verus! {

/// Folds a sequence of records into the map it denotes, later records last.
pub open spec fn contribution_entries_map(s: Seq<Contribution>) -> Map<u64, Contribution>
    decreases s.len(),
{
    if s.len() == 0 {
        Map::empty()
    } else {
        contribution_entries_map(s.drop_last()).insert(s.last().id, s.last())
    }
}

/// Maps contribution ids to approved contributions.
pub struct ContributionRegistry {
    entries: Vec<Contribution>,
}

impl View for ContributionRegistry {
    type V = Map<u64, Contribution>;

    closed spec fn view(&self) -> Map<u64, Contribution> {
        contribution_entries_map(self.entries@)
    }
}

proof fn lemma_contribution_entries_map_domain(s: Seq<Contribution>, k: u64)
    ensures
        contribution_entries_map(s).contains_key(k) <==> exists|i: int|
            0 <= i < s.len() && s[i].id == k,
    decreases s.len(),
{
    if s.len() > 0 {
        lemma_contribution_entries_map_domain(s.drop_last(), k);
        if s.last().id == k {
            assert(s[s.len() - 1].id == k);
        } else if contribution_entries_map(s.drop_last()).contains_key(k) {
            let i = choose|i: int| 0 <= i < s.drop_last().len() && s.drop_last()[i].id == k;
            assert(s[i].id == k);
        } else if exists|i: int| 0 <= i < s.len() && s[i].id == k {
            let i = choose|i: int| 0 <= i < s.len() && s[i].id == k;
            assert(0 <= i < s.len() - 1);
            assert(s.drop_last()[i].id == k);
        }
    }
}

proof fn lemma_contribution_entries_map_value(s: Seq<Contribution>, i: int)
    requires
        0 <= i < s.len(),
        forall|p: int, q: int|
            0 <= p < q < s.len() ==> (#[trigger] s[p]).id != (#[trigger] s[q]).id,
    ensures
        contribution_entries_map(s).contains_key(s[i].id),
        contribution_entries_map(s)[s[i].id] == s[i],
    decreases s.len(),
{
    if i == s.len() - 1 {
    } else {
        assert(s.drop_last()[i] == s[i]);
        lemma_contribution_entries_map_value(s.drop_last(), i);
        assert(s[i].id != s.last().id);
    }
}

proof fn lemma_contribution_entries_map_update(s: Seq<Contribution>, i: int, c: Contribution)
    requires
        0 <= i < s.len(),
        forall|p: int, q: int|
            0 <= p < q < s.len() ==> (#[trigger] s[p]).id != (#[trigger] s[q]).id,
        c.id == s[i].id,
    ensures
        contribution_entries_map(s.update(i, c)) == contribution_entries_map(s).insert(c.id, c),
    decreases s.len(),
{
    let t = s.update(i, c);
    if i == s.len() - 1 {
        assert(t.drop_last() =~= s.drop_last());
        assert(t.last() == c);
        assert(contribution_entries_map(t) =~= contribution_entries_map(s).insert(c.id, c));
    } else {
        assert(t.drop_last() =~= s.drop_last().update(i, c));
        assert(s.drop_last()[i] == s[i]);
        lemma_contribution_entries_map_update(s.drop_last(), i, c);
        assert(t.last() == s.last());
        assert(c.id != s.last().id);
        assert(contribution_entries_map(t) =~= contribution_entries_map(s).insert(c.id, c));
    }
}

impl ContributionRegistry {
    /// The registry is well formed when no contribution id occurs twice.
    pub closed spec fn wf(&self) -> bool {
        forall|p: int, q: int|
            0 <= p < q < self.entries@.len() ==> (#[trigger] self.entries@[p]).id != (
            #[trigger] self.entries@[q]).id
    }

    /// Creates an empty registry.
    pub fn new() -> (r: ContributionRegistry)
        ensures
            r.wf(),
            r@ == Map::<u64, Contribution>::empty(),
    {
        ContributionRegistry { entries: Vec::new() }
    }

    /// Returns the contribution approved under `id`, if any. A pure read.
    pub fn get(&self, id: u64) -> (r: Option<Contribution>)
        requires
            self.wf(),
        ensures
            match r {
                Some(c) => self@.contains_key(id) && c == self@[id],
                None => !self@.contains_key(id),
            },
    {
        let n = self.entries.len();
        let mut i: usize = 0;
        while i < n
            invariant
                self.wf(),
                n == self.entries@.len(),
                i <= n,
                forall|k: int| 0 <= k < i ==> (#[trigger] self.entries@[k]).id != id,
            decreases n - i,
        {
            if self.entries[i].id == id {
                proof {
                    lemma_contribution_entries_map_value(self.entries@, i as int);
                }
                return Some(self.entries[i]);
            }
            i += 1;
        }
        proof {
            lemma_contribution_entries_map_domain(self.entries@, id);
        }
        None
    }

    /// Records a newly approved contribution. The caller must have checked
    /// that the id is not yet approved: ids are unique in the registry.
    pub fn insert(&mut self, c: Contribution)
        requires
            old(self).wf(),
            !old(self)@.contains_key(c.id),
        ensures
            final(self).wf(),
            final(self)@ == old(self)@.insert(c.id, c),
    {
        proof {
            lemma_contribution_entries_map_domain(self.entries@, c.id);
        }
        let ghost pre = self.entries@;
        self.entries.push(c);
        proof {
            assert(self.entries@.drop_last() =~= pre);
            assert(forall|p: int, q: int|
                0 <= p < q < self.entries@.len() ==> (#[trigger] self.entries@[p]).id != (
                #[trigger] self.entries@[q]).id);
        }
    }

    /// Marks the contribution stored under `id` as claimed, leaving its
    /// other fields as they are.
    pub fn mark_claimed(&mut self, id: u64)
        requires
            old(self).wf(),
            old(self)@.contains_key(id),
        ensures
            final(self).wf(),
            final(self)@ == old(self)@.insert(
                id,
                Contribution { is_reward_claimed: true, ..old(self)@[id] },
            ),
    {
        let n = self.entries.len();
        let mut i: usize = 0;
        proof {
            lemma_contribution_entries_map_domain(self.entries@, id);
        }
        while i < n
            invariant
                self.wf(),
                self == old(self),
                n == self.entries@.len(),
                i <= n,
                exists|k: int| 0 <= k < self.entries@.len() && (#[trigger] self.entries@[k]).id == id,
                forall|k: int| 0 <= k < i ==> (#[trigger] self.entries@[k]).id != id,
            decreases n - i,
        {
            if self.entries[i].id == id {
                let updated = Contribution { is_reward_claimed: true, ..self.entries[i] };
                proof {
                    lemma_contribution_entries_map_value(self.entries@, i as int);
                    lemma_contribution_entries_map_update(self.entries@, i as int, updated);
                }
                self.entries[i] = updated;
                return ;
            }
            i += 1;
        }
        proof {
            assert(false);
        }
    }
}

} // verus!

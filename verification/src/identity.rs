//! The identity registry: a write-once mapping from an external identity
//! (a fixed-width hash) to the principal that registered it. A key, once
//! inserted, is never overwritten or removed.

use vstd::prelude::*;

use crate::types::AccountId;
use crate::types::HashValue;
use crate::types::bytes32_eq;

verus! {

/// Folds a sequence of entries into the map it denotes, later entries last.
pub open spec fn identity_entries_map(s: Seq<(HashValue, AccountId)>) -> Map<Seq<u8>, Seq<u8>>
    decreases s.len(),
{
    if s.len() == 0 {
        Map::empty()
    } else {
        identity_entries_map(s.drop_last()).insert(s.last().0@, s.last().1@)
    }
}

/// Maps external identities to principals. Registration is write-once:
/// an existing binding is never changed.
pub struct IdentityRegistry {
    entries: Vec<(HashValue, AccountId)>,
}

impl View for IdentityRegistry {
    type V = Map<Seq<u8>, Seq<u8>>;

    closed spec fn view(&self) -> Map<Seq<u8>, Seq<u8>> {
        identity_entries_map(self.entries@)
    }
}

proof fn lemma_identity_entries_map_domain(s: Seq<(HashValue, AccountId)>, k: Seq<u8>)
    ensures
        identity_entries_map(s).contains_key(k) <==> exists|i: int|
            0 <= i < s.len() && s[i].0@ == k,
    decreases s.len(),
{
    if s.len() > 0 {
        lemma_identity_entries_map_domain(s.drop_last(), k);
        if s.last().0@ == k {
            assert(s[s.len() - 1].0@ == k);
        } else if identity_entries_map(s.drop_last()).contains_key(k) {
            let i = choose|i: int| 0 <= i < s.drop_last().len() && s.drop_last()[i].0@ == k;
            assert(s[i].0@ == k);
        } else if exists|i: int| 0 <= i < s.len() && s[i].0@ == k {
            let i = choose|i: int| 0 <= i < s.len() && s[i].0@ == k;
            assert(0 <= i < s.len() - 1);
            assert(s.drop_last()[i].0@ == k);
        }
    }
}

proof fn lemma_identity_entries_map_value(s: Seq<(HashValue, AccountId)>, i: int)
    requires
        0 <= i < s.len(),
        forall|p: int, q: int|
            0 <= p < q < s.len() ==> (#[trigger] s[p]).0@ != (#[trigger] s[q]).0@,
    ensures
        identity_entries_map(s).contains_key(s[i].0@),
        identity_entries_map(s)[s[i].0@] == s[i].1@,
    decreases s.len(),
{
    if i == s.len() - 1 {
    } else {
        assert(s.drop_last()[i] == s[i]);
        lemma_identity_entries_map_value(s.drop_last(), i);
        assert(s[i].0@ != s.last().0@);
    }
}

impl IdentityRegistry {
    /// The registry is well formed when no identity occurs twice.
    pub closed spec fn wf(&self) -> bool {
        forall|p: int, q: int|
            0 <= p < q < self.entries@.len() ==> (#[trigger] self.entries@[p]).0@ != (
            #[trigger] self.entries@[q]).0@
    }

    /// Creates an empty registry.
    pub fn new() -> (r: IdentityRegistry)
        ensures
            r.wf(),
            r@ == Map::<Seq<u8>, Seq<u8>>::empty(),
    {
        IdentityRegistry { entries: Vec::new() }
    }

    /// Looks up the principal bound to `identity`, if any. A pure read.
    pub fn lookup(&self, identity: &HashValue) -> (r: Option<AccountId>)
        requires
            self.wf(),
        ensures
            match r {
                Some(account) => self@.contains_key(identity@) && account@ == self@[identity@],
                None => !self@.contains_key(identity@),
            },
    {
        let n = self.entries.len();
        let mut i: usize = 0;
        while i < n
            invariant
                self.wf(),
                n == self.entries@.len(),
                i <= n,
                forall|k: int| 0 <= k < i ==> (#[trigger] self.entries@[k]).0@ != identity@,
            decreases n - i,
        {
            if bytes32_eq(&self.entries[i].0, identity) {
                proof {
                    lemma_identity_entries_map_value(self.entries@, i as int);
                }
                return Some(self.entries[i].1);
            }
            i += 1;
        }
        proof {
            lemma_identity_entries_map_domain(self.entries@, identity@);
        }
        None
    }

    /// Binds `identity` to `account`. The caller must have checked that the
    /// identity is still unbound: bindings are never overwritten.
    pub fn insert(&mut self, identity: HashValue, account: AccountId)
        requires
            old(self).wf(),
            !old(self)@.contains_key(identity@),
        ensures
            final(self).wf(),
            final(self)@ == old(self)@.insert(identity@, account@),
    {
        proof {
            lemma_identity_entries_map_domain(self.entries@, identity@);
        }
        let ghost pre = self.entries@;
        self.entries.push((identity, account));
        proof {
            assert(self.entries@.drop_last() =~= pre);
            assert(forall|p: int, q: int|
                0 <= p < q < self.entries@.len() ==> (#[trigger] self.entries@[p]).0@ != (
                #[trigger] self.entries@[q]).0@);
        }
    }
}

} // verus!

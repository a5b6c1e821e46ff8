//! The per-client statement cache: a mapping from query text to the handle
//! the client's resource compiled for that exact text.
//!
//! Keys are compared verbatim; insertion order is irrelevant; entries never
//! expire and the cache is not size-bounded. The cache is viewed as a
//! `Map<Seq<char>, Statement>`.

use vstd::prelude::*;
use crate::resource::Statement;

verus! {

/// What a sequence of entries denotes: the map from each key to the value
/// stored under it (later entries shadow earlier ones; a well-formed cache
/// has no duplicate keys, so nothing is ever shadowed).
pub closed spec fn map_of(s: Seq<(String, Statement)>) -> Map<Seq<char>, Statement>
    decreases s.len(),
{
    if s.len() == 0 {
        Map::empty()
    } else {
        map_of(s.drop_last()).insert(s.last().0@, s.last().1)
    }
}

/// Holds the cached statements; grows on cache misses, and offers the
/// current entry count and a way to drop all entries.
pub struct StatementCache {
    entries: Vec<(String, Statement)>,
}

impl View for StatementCache {
    type V = Map<Seq<char>, Statement>;

    closed spec fn view(&self) -> Map<Seq<char>, Statement> {
        map_of(self.entries@)
    }
}

proof fn lemma_map_of_contains(s: Seq<(String, Statement)>, k: Seq<char>)
    ensures
        map_of(s).contains_key(k) <==> exists|i: int| 0 <= i < s.len() && s[i].0@ == k,
    decreases s.len(),
{
    if s.len() == 0 {
    } else {
        lemma_map_of_contains(s.drop_last(), k);
        if map_of(s).contains_key(k) {
            if s.last().0@ == k {
                assert(s[s.len() - 1].0@ == k);
            } else {
                let i = choose|i: int| 0 <= i < s.drop_last().len() && s.drop_last()[i].0@ == k;
                assert(s[i].0@ == k);
            }
        }
        if exists|i: int| 0 <= i < s.len() && s[i].0@ == k {
            let i = choose|i: int| 0 <= i < s.len() && s[i].0@ == k;
            if i < s.len() - 1 {
                assert(s.drop_last()[i].0@ == k);
            }
        }
    }
}

proof fn lemma_map_of_get(s: Seq<(String, Statement)>, i: int)
    requires
        0 <= i < s.len(),
        forall|p: int, q: int| 0 <= p < q < s.len() ==> s[p].0@ != s[q].0@,
    ensures
        map_of(s).contains_key(s[i].0@),
        map_of(s)[s[i].0@] == s[i].1,
    decreases s.len(),
{
    if i == s.len() - 1 {
    } else {
        assert(s.drop_last()[i] == s[i]);
        lemma_map_of_get(s.drop_last(), i);
        assert(s[i].0@ != s.last().0@);
    }
}

proof fn lemma_map_of_len(s: Seq<(String, Statement)>)
    requires
        forall|p: int, q: int| 0 <= p < q < s.len() ==> s[p].0@ != s[q].0@,
    ensures
        map_of(s).dom().finite(),
        map_of(s).dom().len() == s.len(),
    decreases s.len(),
{
    if s.len() == 0 {
        assert(map_of(s).dom() =~= Set::<Seq<char>>::empty());
    } else {
        lemma_map_of_len(s.drop_last());
        lemma_map_of_contains(s.drop_last(), s.last().0@);
        assert(forall|i: int| 0 <= i < s.drop_last().len() ==> s.drop_last()[i].0@ != s.last().0@);
        assert(!map_of(s.drop_last()).contains_key(s.last().0@));
        assert(map_of(s).dom() =~= map_of(s.drop_last()).dom().insert(s.last().0@));
    }
}

impl StatementCache {
    /// No two entries share a key, so the entry count and the size of the
    /// viewed map agree.
    pub closed spec fn wf(&self) -> bool {
        forall|p: int, q: int|
            0 <= p < q < self.entries@.len() ==> self.entries@[p].0@ != self.entries@[q].0@
    }

    /// A cache starts empty.
    pub fn new() -> (r: StatementCache)
        ensures
            r.wf(),
            r@ == Map::<Seq<char>, Statement>::empty(),
    {
        StatementCache { entries: Vec::new() }
    }

    /// Current entry count, for diagnostics.
    pub fn size(&self) -> (r: usize)
        requires
            self.wf(),
        ensures
            r == self@.dom().len(),
    {
        proof {
            lemma_map_of_len(self.entries@);
        }
        self.entries.len()
    }

    /// Drop all entries; the underlying resource is unaffected.
    pub fn clear(&mut self)
        ensures
            final(self).wf(),
            final(self)@ == Map::<Seq<char>, Statement>::empty(),
    {
        self.entries = Vec::new();
    }

    /// Look the query text up, verbatim.
    pub fn get(&self, query: &String) -> (r: Option<Statement>)
        requires
            self.wf(),
        ensures
            match r {
                Some(st) => self@.contains_key(query@) && st == self@[query@],
                None => !self@.contains_key(query@),
            },
    {
        let n = self.entries.len();
        let mut i: usize = 0;
        while i < n
            invariant
                self.wf(),
                n == self.entries@.len(),
                i <= n,
                forall|j: int| 0 <= j < i ==> self.entries@[j].0@ != query@,
            decreases n - i,
        {
            if self.entries[i].0 == *query {
                proof {
                    lemma_map_of_get(self.entries@, i as int);
                }
                return Some(self.entries[i].1);
            }
            i = i + 1;
        }
        proof {
            lemma_map_of_contains(self.entries@, query@);
        }
        None
    }

    /// Store a handle under a key not yet present.
    pub(crate) fn insert(&mut self, query: String, st: Statement)
        requires
            old(self).wf(),
            !old(self)@.contains_key(query@),
        ensures
            final(self).wf(),
            final(self)@ == old(self)@.insert(query@, st),
    {
        proof {
            lemma_map_of_contains(self.entries@, query@);
        }
        let ghost pre = self.entries@;
        self.entries.push((query, st));
        proof {
            assert(self.entries@.drop_last() =~= pre);
        }
    }
}

} // verus!

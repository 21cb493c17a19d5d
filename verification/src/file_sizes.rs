//! The sizes of the files of a recording, keyed by their paths relative to
//! the recording's directory.

use crate::text::str_eq;
use vstd::prelude::*;
use vstd::string::*;

verus! {

/// The map that a list of pairs stands for: a later pair replaces an earlier
/// one with the same path.
pub open spec fn pairs_map(s: Seq<(String, u64)>) -> Map<Seq<char>, u64>
    decreases s.len(),
{
    if s.len() == 0 {
        Map::empty()
    } else {
        pairs_map(s.drop_last()).insert(s.last().0@, s.last().1)
    }
}

/// True where no two pairs hold the same path.
pub open spec fn distinct_paths(s: Seq<(String, u64)>) -> bool {
    forall|i: int, j: int| 0 <= i < j < s.len() ==> s[i].0@ != s[j].0@
}

proof fn lemma_pairs_map_keys(s: Seq<(String, u64)>, k: Seq<char>)
    ensures
        pairs_map(s).contains_key(k) <==> exists|i: int| 0 <= i < s.len() && s[i].0@ == k,
    decreases s.len(),
{
    if s.len() > 0 {
        let t = s.drop_last();
        lemma_pairs_map_keys(t, k);
        if pairs_map(s).contains_key(k) {
            if s.last().0@ == k {
                assert(s[s.len() - 1].0@ == k);
            } else {
                let i = choose|i: int| 0 <= i < t.len() && t[i].0@ == k;
                assert(s[i].0@ == k);
            }
        }
        if exists|i: int| 0 <= i < s.len() && s[i].0@ == k {
            let i = choose|i: int| 0 <= i < s.len() && s[i].0@ == k;
            if i < s.len() - 1 {
                assert(t[i].0@ == k);
            }
        }
    }
}

proof fn lemma_pairs_map_value(s: Seq<(String, u64)>, i: int)
    requires
        distinct_paths(s),
        0 <= i < s.len(),
    ensures
        pairs_map(s).contains_key(s[i].0@),
        pairs_map(s)[s[i].0@] == s[i].1,
    decreases s.len(),
{
    if i < s.len() - 1 {
        let t = s.drop_last();
        assert(distinct_paths(t)) by {
            assert forall|a: int, b: int| 0 <= a < b < t.len() implies t[a].0@ != t[b].0@ by {
                assert(s[a].0@ != s[b].0@);
            }
        }
        lemma_pairs_map_value(t, i);
        assert(s[i].0@ != s[s.len() - 1].0@);
    }
}

proof fn lemma_pairs_map_len(s: Seq<(String, u64)>)
    requires
        distinct_paths(s),
    ensures
        pairs_map(s).dom().finite(),
        pairs_map(s).dom().len() == s.len(),
    decreases s.len(),
{
    if s.len() > 0 {
        let t = s.drop_last();
        assert(distinct_paths(t)) by {
            assert forall|a: int, b: int| 0 <= a < b < t.len() implies t[a].0@ != t[b].0@ by {
                assert(s[a].0@ != s[b].0@);
            }
        }
        lemma_pairs_map_len(t);
        let k = s.last().0@;
        lemma_pairs_map_keys(t, k);
        if pairs_map(t).contains_key(k) {
            let i = choose|i: int| 0 <= i < t.len() && t[i].0@ == k;
            assert(s[i].0@ != s[s.len() - 1].0@);
        }
        assert(pairs_map(s).dom() =~= pairs_map(t).dom().insert(k));
    }
}

/// Replacing the size at a place that already holds the path is the map's
/// `insert`.
proof fn lemma_pairs_map_update(s: Seq<(String, u64)>, i: int, entry: (String, u64))
    requires
        distinct_paths(s),
        0 <= i < s.len(),
        entry.0@ == s[i].0@,
    ensures
        distinct_paths(s.update(i, entry)),
        pairs_map(s.update(i, entry)) == pairs_map(s).insert(entry.0@, entry.1),
{
    let u = s.update(i, entry);
    assert(distinct_paths(u)) by {
        assert forall|a: int, b: int| 0 <= a < b < u.len() implies u[a].0@ != u[b].0@ by {
            assert(s[a].0@ != s[b].0@);
        }
    }
    let lhs = pairs_map(u);
    let rhs = pairs_map(s).insert(entry.0@, entry.1);
    assert forall|k: Seq<char>| lhs.contains_key(k) <==> rhs.contains_key(k) by {
        lemma_pairs_map_keys(u, k);
        lemma_pairs_map_keys(s, k);
        if exists|j: int| 0 <= j < u.len() && u[j].0@ == k {
            let j = choose|j: int| 0 <= j < u.len() && u[j].0@ == k;
            assert(s[j].0@ == k);
        }
        if exists|j: int| 0 <= j < s.len() && s[j].0@ == k {
            let j = choose|j: int| 0 <= j < s.len() && s[j].0@ == k;
            assert(u[j].0@ == k);
        }
        if k == entry.0@ {
            assert(u[i].0@ == k);
        }
    }
    assert forall|k: Seq<char>| lhs.contains_key(k) implies lhs[k] == rhs[k] by {
        lemma_pairs_map_keys(u, k);
        let j = choose|j: int| 0 <= j < u.len() && u[j].0@ == k;
        lemma_pairs_map_value(u, j);
        lemma_pairs_map_value(s, j);
        if j != i {
            assert(s[j].0@ != s[i].0@);
        }
    }
    assert(lhs =~= rhs);
}

/// Sizes in bytes by relative path. No path is held twice.
#[derive(Debug)]
pub struct FileSizes {
    entries: Vec<(String, u64)>,
}

impl View for FileSizes {
    type V = Map<Seq<char>, u64>;

    closed spec fn view(&self) -> Map<Seq<char>, u64> {
        pairs_map(self.entries@)
    }
}

impl FileSizes {
    #[verifier::type_invariant]
    spec fn distinct(self) -> bool {
        distinct_paths(self.entries@)
    }

    /// The map without any path.
    pub fn new() -> (r: Self)
        ensures
            r@ == Map::<Seq<char>, u64>::empty(),
    {
        FileSizes { entries: Vec::new() }
    }

    /// The number of paths held.
    pub fn len(&self) -> (r: usize)
        ensures
            self@.dom().finite(),
            r == self@.len(),
    {
        proof {
            use_type_invariant(self);
            lemma_pairs_map_len(self.entries@);
        }
        self.entries.len()
    }

    pub fn is_empty(&self) -> (r: bool)
        ensures
            r == (self@ == Map::<Seq<char>, u64>::empty()),
    {
        proof {
            use_type_invariant(self);
            lemma_pairs_map_len(self.entries@);
            if self.entries@.len() > 0 {
                lemma_pairs_map_value(self.entries@, 0);
            }
        }
        self.entries.len() == 0
    }

    /// Where `path` is held.
    fn position(&self, path: &str) -> (r: Option<usize>)
        ensures
            match r {
                Some(i) => i < self.entries.len() && self.entries[i as int].0@ == path@
                    && self@.contains_key(path@) && self@[path@] == self.entries[i as int].1,
                None => !self@.contains_key(path@),
            },
    {
        proof {
            use_type_invariant(self);
        }
        let mut i: usize = 0;
        while i < self.entries.len()
            invariant
                i <= self.entries.len(),
                distinct_paths(self.entries@),
                forall|j: int| 0 <= j < i ==> self.entries[j].0@ != path@,
            decreases self.entries.len() - i,
        {
            if str_eq(self.entries[i].0.as_str(), path) {
                proof {
                    lemma_pairs_map_value(self.entries@, i as int);
                }
                return Some(i);
            }
            i = i + 1;
        }
        proof {
            lemma_pairs_map_keys(self.entries@, path@);
        }
        None
    }

    /// The size held for `path`.
    pub fn get(&self, path: &str) -> (r: Option<u64>)
        ensures
            r == (if self@.contains_key(path@) {
                Some(self@[path@])
            } else {
                None
            }),
    {
        match self.position(path) {
            Some(i) => Some(self.entries[i].1),
            None => None,
        }
    }

    pub fn contains_key(&self, path: &str) -> (r: bool)
        ensures
            r == self@.contains_key(path@),
    {
        self.position(path).is_some()
    }

    /// Holds `size` for `path` from now on, in place of any size held for it
    /// before.
    pub fn insert(&mut self, path: String, size: u64)
        ensures
            final(self)@ == old(self)@.insert(path@, size),
    {
        proof {
            use_type_invariant(&*self);
        }
        let found = self.position(path.as_str());
        let mut entries: Vec<(String, u64)> = Vec::new();
        core::mem::swap(&mut entries, &mut self.entries);
        let ghost before = entries@;
        match found {
            Some(i) => {
                proof {
                    lemma_pairs_map_update(before, i as int, (path, size));
                }
                entries.set(i, (path, size));
            },
            None => {
                proof {
                    lemma_pairs_map_keys(before, path@);
                }
                entries.push((path, size));
                assert(entries@.drop_last() =~= before);
            },
        }
        core::mem::swap(&mut entries, &mut self.entries);
    }

    /// The pairs held, each path once.
    pub fn to_pairs(&self) -> (r: Vec<(String, u64)>)
        ensures
            pairs_map(r@) == self@,
            distinct_paths(r@),
    {
        proof {
            use_type_invariant(self);
        }
        let mut out: Vec<(String, u64)> = Vec::new();
        let mut i: usize = 0;
        while i < self.entries.len()
            invariant
                i <= self.entries.len(),
                out@ == self.entries@.subrange(0, i as int),
            decreases self.entries.len() - i,
        {
            out.push((self.entries[i].0.clone(), self.entries[i].1));
            i = i + 1;
            assert(out@ =~= self.entries@.subrange(0, i as int));
        }
        assert(out@ =~= self.entries@);
        out
    }
}

impl Clone for FileSizes {
    fn clone(&self) -> (r: Self)
        ensures
            r@ == self@,
    {
        proof {
            use_type_invariant(self);
        }
        let pairs = self.to_pairs();
        let mut out = FileSizes::new();
        let mut i: usize = 0;
        while i < pairs.len()
            invariant
                i <= pairs.len(),
                out@ == pairs_map(pairs@.subrange(0, i as int)),
            decreases pairs.len() - i,
        {
            out.insert(pairs[i].0.clone(), pairs[i].1);
            i = i + 1;
            assert(pairs@.subrange(0, i as int).drop_last() =~= pairs@.subrange(0, i - 1));
        }
        assert(pairs@.subrange(0, pairs.len() as int) =~= pairs@);
        out
    }
}

} // verus!

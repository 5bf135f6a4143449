//! Map of HTTP message headers. Header names are compared ignoring ASCII
//! case; an insertion under a name that is already present, in whatever
//! casing, replaces the stored entry, including the stored casing of the
//! name. The model of a map is the sequence of its entries, with at most one
//! entry per case-insensitive name.

use crate::casefold::{
    keys_ci_equal, str_eq_ignore_ascii_case, ascii_case_variant,
    lemma_ascii_case_variant_ci_equal, KeyValueSeq,
};
use vstd::prelude::*;

verus! {

/// At most one entry per case-insensitive name.
pub open spec fn hm_wf(s: KeyValueSeq) -> bool {
    forall|i: int, j: int|
        0 <= i < j < s.len() ==> !keys_ci_equal(#[trigger] s[i].0, #[trigger] s[j].0)
}

/// Some entry's name equals `k` ignoring ASCII case.
pub open spec fn hm_contains(s: KeyValueSeq, k: Seq<char>) -> bool {
    exists|i: int| 0 <= i < s.len() && keys_ci_equal(#[trigger] s[i].0, k)
}

/// The position of the entry whose name equals `k` ignoring ASCII case.
pub open spec fn hm_index(s: KeyValueSeq, k: Seq<char>) -> int {
    choose|i: int| 0 <= i < s.len() && keys_ci_equal(#[trigger] s[i].0, k)
}

/// The value stored under `k`, under case-insensitive lookup.
pub open spec fn hm_get(s: KeyValueSeq, k: Seq<char>) -> Option<Seq<char>> {
    if hm_contains(s, k) {
        Some(s[hm_index(s, k)].1)
    } else {
        None
    }
}

/// The entries after storing `v` under `k`: the entry sharing `k`'s
/// case-insensitive identity is replaced, name casing included; otherwise the
/// new entry is appended.
pub open spec fn hm_insert(s: KeyValueSeq, k: Seq<char>, v: Seq<char>) -> KeyValueSeq {
    if hm_contains(s, k) {
        s.update(hm_index(s, k), (k, v))
    } else {
        s.push((k, v))
    }
}

/// The entries after storing a sequence of pairs in order, so that on a
/// case-insensitive name collision the later pair wins.
pub open spec fn hm_from_pairs(ps: KeyValueSeq) -> KeyValueSeq
    decreases ps.len(),
{
    if ps.len() == 0 {
        Seq::empty()
    } else {
        hm_insert(hm_from_pairs(ps.drop_last()), ps.last().0, ps.last().1)
    }
}

/// In a well-formed entry sequence, any position whose name matches `k`
/// ignoring ASCII case is the position of the lookup.
pub proof fn lemma_hm_index_unique(s: KeyValueSeq, k: Seq<char>, i: int)
    requires
        hm_wf(s),
        0 <= i < s.len(),
        keys_ci_equal(s[i].0, k),
    ensures
        hm_contains(s, k),
        hm_index(s, k) == i,
{
    assert(hm_contains(s, k));
    let j = hm_index(s, k);
    assert(0 <= j < s.len() && keys_ci_equal(s[j].0, k));
    if i < j {
        assert(!keys_ci_equal(s[i].0, s[j].0));
    } else if j < i {
        assert(!keys_ci_equal(s[j].0, s[i].0));
    }
}

/// Insertion keeps the entry sequence well-formed.
pub proof fn lemma_hm_insert_wf(s: KeyValueSeq, k: Seq<char>, v: Seq<char>)
    requires
        hm_wf(s),
    ensures
        hm_wf(hm_insert(s, k, v)),
{
    let t = hm_insert(s, k, v);
    if hm_contains(s, k) {
        let ix = hm_index(s, k);
        assert(0 <= ix < s.len() && keys_ci_equal(s[ix].0, k));
        assert forall|i: int, j: int| 0 <= i < j < t.len() implies
            !keys_ci_equal(#[trigger] t[i].0, #[trigger] t[j].0) by {
            assert(!keys_ci_equal(s[i].0, s[j].0));
        }
    } else {
        assert forall|i: int, j: int| 0 <= i < j < t.len() implies
            !keys_ci_equal(#[trigger] t[i].0, #[trigger] t[j].0) by {
            if j < s.len() {
                assert(!keys_ci_equal(s[i].0, s[j].0));
            } else {
                assert(t[j].0 == k);
                assert(!keys_ci_equal(s[i].0, k));
            }
        }
    }
}

/// Law: after storing `v` under `k`, a lookup under `q` yields `v` whenever
/// `q` equals `k` ignoring ASCII case, and is otherwise unchanged.
pub proof fn lemma_hm_insert_get(s: KeyValueSeq, k: Seq<char>, v: Seq<char>, q: Seq<char>)
    requires
        hm_wf(s),
    ensures
        hm_get(hm_insert(s, k, v), q) == if keys_ci_equal(q, k) {
            Some(v)
        } else {
            hm_get(s, q)
        },
        hm_contains(hm_insert(s, k, v), q) == (keys_ci_equal(q, k) || hm_contains(s, q)),
{
    lemma_hm_insert_wf(s, k, v);
    let t = hm_insert(s, k, v);
    let ins = if hm_contains(s, k) {
        hm_index(s, k)
    } else {
        s.len() as int
    };
    assert(t[ins] == (k, v));
    if keys_ci_equal(q, k) {
        assert(keys_ci_equal(t[ins].0, q));
        lemma_hm_index_unique(t, q, ins);
    } else {
        if hm_contains(s, q) {
            let j = hm_index(s, q);
            assert(0 <= j < s.len() && keys_ci_equal(s[j].0, q));
            assert(j != ins);
            assert(t[j] == s[j]);
            lemma_hm_index_unique(t, q, j);
            if hm_contains(s, k) {
                lemma_hm_index_unique(s, q, j);
            }
        } else {
            assert forall|i: int| 0 <= i < t.len() implies
                !keys_ci_equal(#[trigger] t[i].0, q) by {
                if i != ins {
                    assert(t[i] == s[i]);
                    assert(!keys_ci_equal(s[i].0, q));
                }
            }
            assert(!hm_contains(t, q));
        }
    }
}

/// Law: a lookup gives the same result under any two names that are equal
/// ignoring ASCII case.
pub proof fn lemma_hm_get_case_insensitive(s: KeyValueSeq, k1: Seq<char>, k2: Seq<char>)
    requires
        hm_wf(s),
        keys_ci_equal(k1, k2),
    ensures
        hm_contains(s, k1) == hm_contains(s, k2),
        hm_get(s, k1) == hm_get(s, k2),
{
    if hm_contains(s, k1) {
        let i = hm_index(s, k1);
        assert(0 <= i < s.len() && keys_ci_equal(s[i].0, k1));
        lemma_hm_index_unique(s, k2, i);
        lemma_hm_index_unique(s, k1, i);
    } else if hm_contains(s, k2) {
        let i = hm_index(s, k2);
        assert(0 <= i < s.len() && keys_ci_equal(s[i].0, k2));
        assert(keys_ci_equal(s[i].0, k1));
        assert(hm_contains(s, k1));
    }
}

/// Law: after storing `v` under `k`, a lookup under any ASCII case-variant of
/// `k` yields exactly `v`.
pub proof fn lemma_hm_case_insensitive_lookup(
    s: KeyValueSeq,
    k: Seq<char>,
    v: Seq<char>,
    q: Seq<char>,
)
    requires
        hm_wf(s),
        ascii_case_variant(q, k),
    ensures
        hm_get(hm_insert(s, k, v), q) == Some(v),
{
    lemma_ascii_case_variant_ci_equal(q, k);
    lemma_hm_insert_get(s, k, v, q);
}

/// Map of HTTP message headers. Header names are case-insensitive.
pub struct HeaderMap {
    entries: Vec<(String, String)>,
}

impl View for HeaderMap {
    type V = KeyValueSeq;

    closed spec fn view(&self) -> KeyValueSeq {
        self.entries@.map_values(|p: (String, String)| (p.0@, p.1@))
    }
}

impl HeaderMap {
    #[verifier::type_invariant]
    pub(crate) open spec fn well_formed(self) -> bool {
        hm_wf(self@)
    }

    /// Constructor.
    pub fn new() -> (r: HeaderMap)
        ensures
            r@ == KeyValueSeq::empty(),
    {
        let r = HeaderMap { entries: Vec::new() };
        proof {
            assert(r@ =~= KeyValueSeq::empty());
        }
        r
    }

    /// Converts a vector of `(name, value)` pairs to a `HeaderMap`, inserting
    /// them in order: on a case-insensitive name collision the later pair
    /// wins.
    pub fn from_pairs(pairs: Vec<(String, String)>) -> (r: HeaderMap)
        ensures
            r@ == hm_from_pairs(pairs@.map_values(|p: (String, String)| (p.0@, p.1@))),
    {
        let ghost ps = pairs@.map_values(|p: (String, String)| (p.0@, p.1@));
        let mut r = HeaderMap::new();
        let n = pairs.len();
        let mut i: usize = 0;
        proof {
            assert(ps.take(0) =~= KeyValueSeq::empty());
        }
        while i < n
            invariant
                n == pairs.len(),
                0 <= i <= n,
                ps == pairs@.map_values(|p: (String, String)| (p.0@, p.1@)),
                r@ == hm_from_pairs(ps.take(i as int)),
            decreases n - i,
        {
            r.insert(pairs[i].0.as_str(), pairs[i].1.as_str());
            proof {
                assert(ps.take(i + 1).drop_last() =~= ps.take(i as int));
                assert(ps.take(i + 1).last() == ps[i as int]);
            }
            i += 1;
        }
        proof {
            assert(ps.take(n as int) =~= ps);
        }
        r
    }

    /// Converts a vector of borrowed `(name, value)` pairs to a `HeaderMap`,
    /// inserting them in order: on a case-insensitive name collision the
    /// later pair wins.
    pub fn from_str_pairs(pairs: &Vec<(&str, &str)>) -> (r: HeaderMap)
        ensures
            r@ == hm_from_pairs(pairs@.map_values(|p: (&str, &str)| (p.0@, p.1@))),
    {
        let ghost ps = pairs@.map_values(|p: (&str, &str)| (p.0@, p.1@));
        let mut r = HeaderMap::new();
        let n = pairs.len();
        let mut i: usize = 0;
        proof {
            assert(ps.take(0) =~= KeyValueSeq::empty());
        }
        while i < n
            invariant
                n == pairs.len(),
                0 <= i <= n,
                ps == pairs@.map_values(|p: (&str, &str)| (p.0@, p.1@)),
                r@ == hm_from_pairs(ps.take(i as int)),
            decreases n - i,
        {
            r.insert(pairs[i].0, pairs[i].1);
            proof {
                assert(ps.take(i + 1).drop_last() =~= ps.take(i as int));
                assert(ps.take(i + 1).last() == ps[i as int]);
            }
            i += 1;
        }
        proof {
            assert(ps.take(n as int) =~= ps);
        }
        r
    }

    /// Finds the position of the entry whose name equals `key` ignoring ASCII
    /// case, if any.
    fn find(&self, key: &str) -> (r: Option<usize>)
        ensures
            match r {
                Some(i) => i < self@.len() && keys_ci_equal(self@[i as int].0, key@),
                None => !hm_contains(self@, key@),
            },
    {
        let n = self.entries.len();
        let mut i: usize = 0;
        while i < n
            invariant
                n == self.entries.len(),
                0 <= i <= n,
                forall|j: int| 0 <= j < i ==> !keys_ci_equal(#[trigger] self@[j].0, key@),
            decreases n - i,
        {
            if str_eq_ignore_ascii_case(self.entries[i].0.as_str(), key) {
                return Some(i);
            }
            i += 1;
        }
        None
    }

    /// Inserts a header with `key` and `value`. Returns `true` if there was a
    /// previous header with the same `key`, ignoring ASCII case; that header
    /// is then replaced.
    pub fn insert(&mut self, key: &str, value: &str) -> (r: bool)
        ensures
            final(self)@ == hm_insert(old(self)@, key@, value@),
            r == hm_contains(old(self)@, key@),
    {
        proof {
            use_type_invariant(&*self);
            lemma_hm_insert_wf(old(self)@, key@, value@);
        }
        let idx_opt = self.find(key);
        let pair = (key.to_owned(), value.to_owned());
        let mut es: Vec<(String, String)> = Vec::new();
        core::mem::swap(&mut es, &mut self.entries);
        proof {
            assert(self@ =~= KeyValueSeq::empty());
        }
        let r: bool;
        match idx_opt {
            Some(i) => {
                proof {
                    lemma_hm_index_unique(old(self)@, key@, i as int);
                }
                let e = &mut es[i];
                *e = pair;
                r = true;
            }
            None => {
                es.push(pair);
                r = false;
            }
        }
        proof {
            assert(es@.map_values(|p: (String, String)| (p.0@, p.1@)) =~= hm_insert(
                old(self)@,
                key@,
                value@,
            ));
        }
        self.entries = es;
        r
    }

    /// Returns `true` if there is a header with `key`, ignoring ASCII case.
    pub fn contains_key(&self, key: &str) -> (r: bool)
        ensures
            r == hm_contains(self@, key@),
    {
        let idx_opt = self.find(key);
        match idx_opt {
            Some(i) => {
                proof {
                    assert(keys_ci_equal(self@[i as int].0, key@));
                }
                true
            }
            None => false,
        }
    }

    /// Gets a reference to the stored header value, under case-insensitive
    /// lookup, if any.
    pub fn get(&self, key: &str) -> (r: Option<&str>)
        ensures
            match r {
                Some(v) => hm_get(self@, key@) == Some(v@),
                None => !hm_contains(self@, key@),
            },
    {
        proof {
            use_type_invariant(&*self);
        }
        let idx_opt = self.find(key);
        match idx_opt {
            Some(i) => {
                proof {
                    lemma_hm_index_unique(self@, key@, i as int);
                }
                Some(self.entries[i].1.as_str())
            }
            None => None,
        }
    }

    /// The number of headers.
    pub fn len(&self) -> (r: usize)
        ensures
            r == self@.len(),
    {
        self.entries.len()
    }

    /// The `(name, value)` entry at a position, in storage order.
    pub fn entry_at(&self, i: usize) -> (r: (&str, &str))
        requires
            i < self@.len(),
        ensures
            (r.0@, r.1@) == self@[i as int],
    {
        (self.entries[i].0.as_str(), self.entries[i].1.as_str())
    }

    /// Gets an iterator over `(name, value)` entries, one per header, over
    /// the map's current state.
    pub fn iter(&self) -> (it: HeaderIter)
        ensures
            it@ == self@,
    {
        let n = self.entries.len();
        let mut es: Vec<(String, String)> = Vec::new();
        let mut i: usize = 0;
        while i < n
            invariant
                n == self.entries.len(),
                0 <= i <= n,
                es@.len() == i,
                forall|j: int| 0 <= j < i ==> (#[trigger] es@[j].0@, es@[j].1@) == self@[j],
            decreases n - i,
        {
            let k = self.entries[i].0.clone();
            let v = self.entries[i].1.clone();
            es.push((k, v));
            i += 1;
        }
        let it = HeaderIter { entries: es, pos: 0 };
        proof {
            assert(it@ =~= self@);
        }
        it
    }
}

/// Iterator over header `(name, value)` entries.
pub struct HeaderIter {
    entries: Vec<(String, String)>,
    pos: usize,
}

impl View for HeaderIter {
    type V = KeyValueSeq;

    closed spec fn view(&self) -> KeyValueSeq {
        self.entries@.map_values(|p: (String, String)| (p.0@, p.1@)).skip(self.pos as int)
    }
}

impl HeaderIter {
    #[verifier::type_invariant]
    spec fn in_range(self) -> bool {
        self.pos <= self.entries.len()
    }

    /// Yields the next `(name, value)` entry, or `None` when the iterator is
    /// exhausted.
    pub fn next(&mut self) -> (r: Option<(String, String)>)
        ensures
            old(self)@.len() > 0 ==> {
                &&& r matches Some(p) && (p.0@, p.1@) == old(self)@[0]
                &&& final(self)@ == old(self)@.drop_first()
            },
            old(self)@.len() == 0 ==> r is None && final(self)@ == old(self)@,
    {
        proof {
            use_type_invariant(&*self);
        }
        if self.pos < self.entries.len() {
            let k = self.entries[self.pos].0.clone();
            let v = self.entries[self.pos].1.clone();
            self.pos = self.pos + 1;
            proof {
                assert(final(self)@ =~= old(self)@.drop_first());
            }
            Some((k, v))
        } else {
            None
        }
    }
}

} // verus!

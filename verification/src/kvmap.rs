//! Map of request query parameters and request cookies. Keys are compared
//! exactly, so two keys that differ only in case name two distinct entries.
//! The model of a map is the sequence of its entries, with at most one entry
//! per exact key.

use crate::casefold::{ascii_case_variant, str_eq, KeyValueSeq};
use vstd::prelude::*;

verus! {

/// At most one entry per exact key.
pub open spec fn kv_wf(s: KeyValueSeq) -> bool {
    forall|i: int, j: int| 0 <= i < j < s.len() ==> (#[trigger] s[i].0) != (#[trigger] s[j].0)
}

/// Some entry's key equals `k` exactly.
pub open spec fn kv_contains(s: KeyValueSeq, k: Seq<char>) -> bool {
    exists|i: int| 0 <= i < s.len() && (#[trigger] s[i].0) == k
}

/// The position of the entry whose key equals `k` exactly.
pub open spec fn kv_index(s: KeyValueSeq, k: Seq<char>) -> int {
    choose|i: int| 0 <= i < s.len() && (#[trigger] s[i].0) == k
}

/// The value stored under the exact key `k`.
pub open spec fn kv_get(s: KeyValueSeq, k: Seq<char>) -> Option<Seq<char>> {
    if kv_contains(s, k) {
        Some(s[kv_index(s, k)].1)
    } else {
        None
    }
}

/// The entries after storing `v` under `k`: the entry with key `k` is
/// replaced; otherwise the new entry is appended.
pub open spec fn kv_insert(s: KeyValueSeq, k: Seq<char>, v: Seq<char>) -> KeyValueSeq {
    if kv_contains(s, k) {
        s.update(kv_index(s, k), (k, v))
    } else {
        s.push((k, v))
    }
}

/// In a well-formed entry sequence, any position whose key equals `k` is the
/// position of the lookup.
pub proof fn lemma_kv_index_unique(s: KeyValueSeq, k: Seq<char>, i: int)
    requires
        kv_wf(s),
        0 <= i < s.len(),
        s[i].0 == k,
    ensures
        kv_contains(s, k),
        kv_index(s, k) == i,
{
    assert(kv_contains(s, k));
    let j = kv_index(s, k);
    assert(0 <= j < s.len() && s[j].0 == k);
    if i < j {
        assert(s[i].0 != s[j].0);
    } else if j < i {
        assert(s[j].0 != s[i].0);
    }
}

/// Insertion keeps the entry sequence well-formed.
pub proof fn lemma_kv_insert_wf(s: KeyValueSeq, k: Seq<char>, v: Seq<char>)
    requires
        kv_wf(s),
    ensures
        kv_wf(kv_insert(s, k, v)),
{
    let t = kv_insert(s, k, v);
    if kv_contains(s, k) {
        let ix = kv_index(s, k);
        assert(0 <= ix < s.len() && s[ix].0 == k);
        assert forall|i: int, j: int| 0 <= i < j < t.len() implies (#[trigger] t[i].0)
            != (#[trigger] t[j].0) by {
            assert(s[i].0 != s[j].0);
        }
    } else {
        assert forall|i: int, j: int| 0 <= i < j < t.len() implies (#[trigger] t[i].0)
            != (#[trigger] t[j].0) by {
            if j < s.len() {
                assert(s[i].0 != s[j].0);
            } else {
                assert(t[j].0 == k);
                assert(s[i].0 != k);
            }
        }
    }
}

/// Law: after storing `v` under `k`, a lookup yields `v` under exactly the
/// key `k`, and is unchanged under every other key.
pub proof fn lemma_kv_insert_get(s: KeyValueSeq, k: Seq<char>, v: Seq<char>, q: Seq<char>)
    requires
        kv_wf(s),
    ensures
        kv_get(kv_insert(s, k, v), q) == if q == k {
            Some(v)
        } else {
            kv_get(s, q)
        },
        kv_contains(kv_insert(s, k, v), q) == (q == k || kv_contains(s, q)),
{
    lemma_kv_insert_wf(s, k, v);
    let t = kv_insert(s, k, v);
    let ins = if kv_contains(s, k) {
        kv_index(s, k)
    } else {
        s.len() as int
    };
    assert(t[ins] == (k, v));
    if q == k {
        lemma_kv_index_unique(t, q, ins);
    } else {
        if kv_contains(s, q) {
            let j = kv_index(s, q);
            assert(0 <= j < s.len() && s[j].0 == q);
            assert(j != ins);
            assert(t[j] == s[j]);
            lemma_kv_index_unique(t, q, j);
            if kv_contains(s, k) {
                lemma_kv_index_unique(s, q, j);
            }
        } else {
            assert forall|i: int| 0 <= i < t.len() implies (#[trigger] t[i].0) != q by {
                if i != ins {
                    assert(t[i] == s[i]);
                }
            }
            assert(!kv_contains(t, q));
        }
    }
}

/// Law: keys are case-sensitive. After storing `v` under `k`, a lookup under
/// a differently-cased variant of `k` that was never inserted returns
/// nothing.
pub proof fn lemma_kv_case_sensitive_lookup(
    s: KeyValueSeq,
    k: Seq<char>,
    v: Seq<char>,
    q: Seq<char>,
)
    requires
        kv_wf(s),
        ascii_case_variant(q, k),
        q != k,
        !kv_contains(s, q),
    ensures
        kv_get(kv_insert(s, k, v), q) is None,
{
    lemma_kv_insert_get(s, k, v, q);
}

/// Map of request parameters or request cookies. Keys are case-sensitive.
pub struct KeyValueMap {
    entries: Vec<(String, String)>,
}

impl View for KeyValueMap {
    type V = KeyValueSeq;

    closed spec fn view(&self) -> KeyValueSeq {
        self.entries@.map_values(|p: (String, String)| (p.0@, p.1@))
    }
}

impl KeyValueMap {
    #[verifier::type_invariant]
    pub(crate) open spec fn well_formed(self) -> bool {
        kv_wf(self@)
    }

    /// Constructor.
    pub fn new() -> (r: KeyValueMap)
        ensures
            r@ == KeyValueSeq::empty(),
    {
        let r = KeyValueMap { entries: Vec::new() };
        proof {
            assert(r@ =~= KeyValueSeq::empty());
        }
        r
    }

    /// Finds the position of the entry whose key equals `key`, if any.
    fn find(&self, key: &str) -> (r: Option<usize>)
        ensures
            match r {
                Some(i) => i < self@.len() && self@[i as int].0 == key@,
                None => !kv_contains(self@, key@),
            },
    {
        let n = self.entries.len();
        let mut i: usize = 0;
        while i < n
            invariant
                n == self.entries.len(),
                0 <= i <= n,
                forall|j: int| 0 <= j < i ==> (#[trigger] self@[j].0) != key@,
            decreases n - i,
        {
            if str_eq(self.entries[i].0.as_str(), key) {
                return Some(i);
            }
            i += 1;
        }
        None
    }

    /// Inserts a `key`/`value` pair. Returns `true` if there was a previous
    /// entry with exactly the same `key`; that entry is then replaced.
    pub fn insert(&mut self, key: &str, value: &str) -> (r: bool)
        ensures
            final(self)@ == kv_insert(old(self)@, key@, value@),
            r == kv_contains(old(self)@, key@),
    {
        proof {
            use_type_invariant(&*self);
            lemma_kv_insert_wf(old(self)@, key@, value@);
        }
        let idx_opt = self.find(key);
        let pair = (key.to_owned(), value.to_owned());
        let mut es: Vec<(String, String)> = Vec::new();
        core::mem::swap(&mut es, &mut self.entries);
        proof {
            assert(self@ =~= KeyValueSeq::empty());
        }
        let r: bool;
        match idx_opt {
            Some(i) => {
                proof {
                    lemma_kv_index_unique(old(self)@, key@, i as int);
                }
                let e = &mut es[i];
                *e = pair;
                r = true;
            }
            None => {
                es.push(pair);
                r = false;
            }
        }
        proof {
            assert(es@.map_values(|p: (String, String)| (p.0@, p.1@)) =~= kv_insert(
                old(self)@,
                key@,
                value@,
            ));
        }
        self.entries = es;
        r
    }

    /// Gets the value associated to the exact `key`, if any.
    pub fn get(&self, key: &str) -> (r: Option<&str>)
        ensures
            match r {
                Some(v) => kv_get(self@, key@) == Some(v@),
                None => !kv_contains(self@, key@),
            },
    {
        proof {
            use_type_invariant(&*self);
        }
        let idx_opt = self.find(key);
        match idx_opt {
            Some(i) => {
                proof {
                    lemma_kv_index_unique(self@, key@, i as int);
                }
                Some(self.entries[i].1.as_str())
            }
            None => None,
        }
    }

    /// Checks that the map contains an entry with the exact `key`.
    pub fn contains_key(&self, key: &str) -> (r: bool)
        ensures
            r == kv_contains(self@, key@),
    {
        let idx_opt = self.find(key);
        match idx_opt {
            Some(i) => {
                proof {
                    assert(self@[i as int].0 == key@);
                }
                true
            }
            None => false,
        }
    }

    /// The number of entries.
    pub fn len(&self) -> (r: usize)
        ensures
            r == self@.len(),
    {
        self.entries.len()
    }

    /// The `(key, value)` entry at a position, in storage order.
    pub fn entry_at(&self, i: usize) -> (r: (&str, &str))
        requires
            i < self@.len(),
        ensures
            (r.0@, r.1@) == self@[i as int],
    {
        (self.entries[i].0.as_str(), self.entries[i].1.as_str())
    }

    /// Generates an iterator over `(key, value)` entries, one per entry, over
    /// the map's current state.
    pub fn iter(&self) -> (it: KeyValueIter)
        ensures
            it@ == self@,
    {
        let n = self.entries.len();
        let mut es: Vec<(String, String)> = Vec::new();
        let mut i: usize = 0;
        while i < n
            invariant
                n == self.entries.len(),
                0 <= i <= n,
                es@.len() == i,
                forall|j: int| 0 <= j < i ==> (#[trigger] es@[j].0@, es@[j].1@) == self@[j],
            decreases n - i,
        {
            let k = self.entries[i].0.clone();
            let v = self.entries[i].1.clone();
            es.push((k, v));
            i += 1;
        }
        let it = KeyValueIter { entries: es, pos: 0 };
        proof {
            assert(it@ =~= self@);
        }
        it
    }
}

/// Iterator over parameter or cookie `(key, value)` entries.
pub struct KeyValueIter {
    entries: Vec<(String, String)>,
    pos: usize,
}

impl View for KeyValueIter {
    type V = KeyValueSeq;

    closed spec fn view(&self) -> KeyValueSeq {
        self.entries@.map_values(|p: (String, String)| (p.0@, p.1@)).skip(self.pos as int)
    }
}

impl KeyValueIter {
    #[verifier::type_invariant]
    spec fn in_range(self) -> bool {
        self.pos <= self.entries.len()
    }

    /// Yields the next `(key, value)` entry, or `None` when the iterator is
    /// exhausted.
    pub fn next(&mut self) -> (r: Option<(String, String)>)
        ensures
            old(self)@.len() > 0 ==> {
                &&& r matches Some(p) && (p.0@, p.1@) == old(self)@[0]
                &&& final(self)@ == old(self)@.drop_first()
            },
            old(self)@.len() == 0 ==> r is None && final(self)@ == old(self)@,
    {
        proof {
            use_type_invariant(&*self);
        }
        if self.pos < self.entries.len() {
            let k = self.entries[self.pos].0.clone();
            let v = self.entries[self.pos].1.clone();
            self.pos = self.pos + 1;
            proof {
                assert(final(self)@ =~= old(self)@.drop_first());
            }
            Some((k, v))
        } else {
            None
        }
    }
}

} // verus!

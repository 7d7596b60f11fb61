//! Variant maps: named presets (key to template, or key to prefix), kept in
//! the order in which their keys were first stored.

use vstd::prelude::*;

verus! {

/// A stored key and its value, as character sequences.
pub type Pair = (Seq<char>, Seq<char>);

/// The position of the first pair at or after `i` whose key is `k`, or -1.
pub open spec fn key_index(p: Seq<Pair>, k: Seq<char>, i: int) -> int
    decreases p.len() - i,
{
    if 0 <= i < p.len() {
        if p[i].0 == k {
            i
        } else {
            key_index(p, k, i + 1)
        }
    } else {
        -1
    }
}

/// The value stored under `k`, if any.
pub open spec fn lookup(p: Seq<Pair>, k: Seq<char>) -> Option<Seq<char>> {
    let i = key_index(p, k, 0);
    if i < 0 {
        None
    } else {
        Some(p[i].1)
    }
}

/// `p` with `v` stored under `k`: the value of an existing key is replaced in
/// place, a new key goes at the end.
pub open spec fn with_entry(p: Seq<Pair>, k: Seq<char>, v: Seq<char>) -> Seq<Pair> {
    let i = key_index(p, k, 0);
    if i < 0 {
        p.push((k, v))
    } else {
        p.update(i, (k, v))
    }
}

/// `p` without the pair whose key is `k`.
pub open spec fn without_key(p: Seq<Pair>, k: Seq<char>) -> Seq<Pair> {
    let i = key_index(p, k, 0);
    if i < 0 {
        p
    } else {
        p.remove(i)
    }
}

/// No key occurs twice.
pub open spec fn keys_unique(p: Seq<Pair>) -> bool {
    forall|i: int, j: int| 0 <= i < p.len() && 0 <= j < p.len() && i != j ==> p[i].0 != p[j].0
}

/// The pairs as a map from key to value.
pub open spec fn as_map(p: Seq<Pair>) -> Map<Seq<char>, Seq<char>> {
    Map::new(|k: Seq<char>| lookup(p, k) is Some, |k: Seq<char>| lookup(p, k)->Some_0)
}

/// `key_index` finds the first position at or after `i` that holds `k`.
pub proof fn lemma_key_index(p: Seq<Pair>, k: Seq<char>, i: int)
    requires
        0 <= i <= p.len(),
    ensures
        ({
            let r = key_index(p, k, i);
            ||| r == -1 && forall|j: int| i <= j < p.len() ==> p[j].0 != k
            ||| i <= r < p.len() && p[r].0 == k && forall|j: int| i <= j < r ==> p[j].0 != k
        }),
    decreases p.len() - i,
{
    if i < p.len() && p[i].0 != k {
        lemma_key_index(p, k, i + 1);
    }
}

/// Two sequences with the same keys at the same positions find keys alike.
proof fn lemma_key_index_same_keys(p: Seq<Pair>, q: Seq<Pair>, k: Seq<char>, i: int)
    requires
        p.len() == q.len(),
        forall|j: int| 0 <= j < p.len() ==> p[j].0 == q[j].0,
    ensures
        key_index(p, k, i) == key_index(q, k, i),
    decreases p.len() - i,
{
    if 0 <= i < p.len() {
        lemma_key_index_same_keys(p, q, k, i + 1);
    }
}

/// Finding a key after a pair was appended.
proof fn lemma_key_index_push(p: Seq<Pair>, e: Pair, k: Seq<char>, i: int)
    requires
        0 <= i <= p.len(),
    ensures
        key_index(p.push(e), k, i) == if key_index(p, k, i) >= 0 {
            key_index(p, k, i)
        } else if e.0 == k {
            p.len() as int
        } else {
            -1
        },
    decreases p.len() - i,
{
    let q = p.push(e);
    if i < p.len() {
        assert(q[i] == p[i]);
        lemma_key_index_push(p, e, k, i + 1);
    } else {
        assert(q[i] == e);
        assert(key_index(q, k, i + 1) == -1);
    }
}

/// Storing `v` under `k` makes `k` look up `v` and leaves every other key as it was.
pub proof fn lemma_lookup_after_insert(p: Seq<Pair>, k: Seq<char>, v: Seq<char>, k2: Seq<char>)
    ensures
        lookup(with_entry(p, k, v), k2) == if k2 == k {
            Some(v)
        } else {
            lookup(p, k2)
        },
{
    let i = key_index(p, k, 0);
    lemma_key_index(p, k, 0);
    if i < 0 {
        lemma_key_index_push(p, (k, v), k2, 0);
        lemma_key_index_push(p, (k, v), k, 0);
        let q = p.push((k, v));
        let s = key_index(p, k2, 0);
        lemma_key_index(p, k2, 0);
        if s >= 0 {
            assert(q[s] == p[s]);
        }
        assert(q[p.len() as int] == (k, v));
    } else {
        let q = p.update(i, (k, v));
        lemma_key_index_same_keys(p, q, k2, 0);
        lemma_key_index(p, k2, 0);
    }
}

/// Storing a pair keeps the keys unique.
pub proof fn lemma_insert_keeps_keys_unique(p: Seq<Pair>, k: Seq<char>, v: Seq<char>)
    requires
        keys_unique(p),
    ensures
        keys_unique(with_entry(p, k, v)),
{
    lemma_key_index(p, k, 0);
}

/// Removing `k` makes it absent and leaves every other key as it was.
pub proof fn lemma_lookup_after_remove(p: Seq<Pair>, k: Seq<char>, k2: Seq<char>)
    requires
        keys_unique(p),
    ensures
        lookup(without_key(p, k), k2) == if k2 == k {
            None
        } else {
            lookup(p, k2)
        },
        keys_unique(without_key(p, k)),
{
    let q = without_key(p, k);
    lemma_key_index(p, k, 0);
    lemma_key_index(p, k2, 0);
    lemma_key_index(q, k2, 0);
    let i = key_index(p, k, 0);
    let r = key_index(q, k2, 0);
    let s = key_index(p, k2, 0);
    if i >= 0 {
        if r >= 0 {
            let pr = if r < i { r } else { r + 1 };
            assert(p[pr].0 == k2);
        }
        if s >= 0 && k2 != k {
            let qs = if s < i { s } else { s - 1 };
            assert(q[qs].0 == k2);
        }
    }
}

/// A map from key to value (a template or a prefix), in the order in which
/// keys were first stored.
#[derive(Debug)]
pub struct Variants {
    entries: Vec<(String, String)>,
}

impl View for Variants {
    type V = Seq<Pair>;

    closed spec fn view(&self) -> Seq<Pair> {
        self.entries@.map_values(|e: (String, String)| (e.0@, e.1@))
    }
}

impl Variants {
    /// An empty map.
    pub fn new() -> (r: Self)
        ensures
            r@ == Seq::<Pair>::empty(),
    {
        let r = Variants { entries: Vec::new() };
        assert(r@ =~= Seq::<Pair>::empty());
        r
    }

    /// The number of stored keys.
    pub fn len(&self) -> (r: usize)
        ensures
            r == self@.len(),
    {
        self.entries.len()
    }

    /// The key and value stored at position `i`.
    pub fn entry(&self, i: usize) -> (r: (&String, &String))
        requires
            i < self@.len(),
        ensures
            (r.0@, r.1@) == self@[i as int],
    {
        (&self.entries[i].0, &self.entries[i].1)
    }

    fn position(&self, key: &String) -> (r: Option<usize>)
        ensures
            r is None <==> key_index(self@, key@, 0) < 0,
            r matches Some(i) ==> i == key_index(self@, key@, 0) && i < self@.len(),
    {
        let mut i: usize = 0;
        while i < self.entries.len()
            invariant
                i <= self@.len(),
                self@.len() == self.entries@.len(),
                key_index(self@, key@, i as int) == key_index(self@, key@, 0),
            decreases self.entries.len() - i,
        {
            if self.entries[i].0 == *key {
                return Some(i);
            }
            i = i + 1;
        }
        None
    }

    /// The value stored under `key`.
    pub fn get(&self, key: &String) -> (r: Option<&String>)
        ensures
            r is None <==> lookup(self@, key@) is None,
            r matches Some(v) ==> lookup(self@, key@) == Some(v@),
    {
        match self.position(key) {
            Some(i) => Some(&self.entries[i].1),
            None => None,
        }
    }

    /// Stores `value` under `key`, replacing what was there.
    pub fn insert(&mut self, key: String, value: String)
        ensures
            final(self)@ == with_entry(old(self)@, key@, value@),
            as_map(final(self)@) == as_map(old(self)@).insert(key@, value@),
    {
        let ghost k = key@;
        let ghost v = value@;
        match self.position(&key) {
            Some(i) => {
                self.entries.set(i, (key, value));
            },
            None => {
                self.entries.push((key, value));
            },
        }
        assert(self@ =~= with_entry(old(self)@, k, v));
        assert forall|k2: Seq<char>| #[trigger]
            lookup(self@, k2) == (if k2 == k {
                Some(v)
            } else {
                lookup(old(self)@, k2)
            }) by {
            lemma_lookup_after_insert(old(self)@, k, v, k2);
        }
        assert(as_map(self@) =~= as_map(old(self)@).insert(k, v));
    }

    /// Removes `key`, handing back the value that was stored under it.
    pub fn remove(&mut self, key: &String) -> (r: Option<String>)
        ensures
            final(self)@ == without_key(old(self)@, key@),
            r is None <==> lookup(old(self)@, key@) is None,
            r matches Some(v) ==> lookup(old(self)@, key@) == Some(v@),
    {
        match self.position(key) {
            Some(i) => {
                let (_, v) = self.entries.remove(i);
                assert(self@ =~= without_key(old(self)@, key@));
                Some(v)
            },
            None => None,
        }
    }
}

} // verus!

//! A map from profile keys to profile values, viewed as a mathematical map.
//!
//! Profiles are sets of `key = value` pairs in which a later write of a key
//! replaces the earlier one. [`FieldMap`] stores the pairs in a vector whose
//! keys are pairwise distinct (its type invariant); its view is the
//! `Map<Seq<char>, Seq<char>>` they describe.

use vstd::prelude::*;
use crate::text::str_eq;

verus! {

broadcast use vstd::string::group_string_axioms;

/// The character views of a list of key/value pairs.
pub open spec fn pair_views(v: Seq<(String, String)>) -> Seq<(Seq<char>, Seq<char>)> {
    v.map_values(|e: (String, String)| (e.0@, e.1@))
}

/// No key occurs twice.
pub open spec fn keys_distinct(p: Seq<(Seq<char>, Seq<char>)>) -> bool {
    forall|i: int, j: int|
        0 <= i < p.len() && 0 <= j < p.len() && i != j ==> #[trigger] p[i].0 != #[trigger] p[j].0
}

/// The map described by a list of pairs with distinct keys.
pub open spec fn map_of(p: Seq<(Seq<char>, Seq<char>)>) -> Map<Seq<char>, Seq<char>> {
    Map::new(
        |k: Seq<char>| exists|i: int| 0 <= i < p.len() && #[trigger] p[i].0 == k,
        |k: Seq<char>| p[choose|i: int| 0 <= i < p.len() && #[trigger] p[i].0 == k].1,
    )
}

/// Each pair of a list with distinct keys is an entry of its map.
pub proof fn lemma_map_of_at(p: Seq<(Seq<char>, Seq<char>)>, i: int)
    requires
        keys_distinct(p),
        0 <= i < p.len(),
    ensures
        map_of(p).contains_key(p[i].0),
        map_of(p)[p[i].0] == p[i].1,
{
    let k = p[i].0;
    assert(exists|j: int| 0 <= j < p.len() && #[trigger] p[j].0 == k);
    let j = choose|j: int| 0 <= j < p.len() && #[trigger] p[j].0 == k;
    assert(j == i);
}

/// A key that no pair holds is not in the map.
pub proof fn lemma_map_of_absent(p: Seq<(Seq<char>, Seq<char>)>, k: Seq<char>)
    requires
        forall|i: int| 0 <= i < p.len() ==> #[trigger] p[i].0 != k,
    ensures
        !map_of(p).contains_key(k),
{
}

/// Replacing the value of an existing pair updates that key in the map.
pub proof fn lemma_map_of_update(p: Seq<(Seq<char>, Seq<char>)>, i: int, v: Seq<char>)
    requires
        keys_distinct(p),
        0 <= i < p.len(),
    ensures
        keys_distinct(p.update(i, (p[i].0, v))),
        map_of(p.update(i, (p[i].0, v))) =~= map_of(p).insert(p[i].0, v),
{
    let k = p[i].0;
    let q = p.update(i, (k, v));
    assert(keys_distinct(q)) by {
        assert forall|a: int, b: int|
            0 <= a < q.len() && 0 <= b < q.len() && a != b implies #[trigger] q[a].0
            != #[trigger] q[b].0 by {
            assert(q[a].0 == p[a].0);
            assert(q[b].0 == p[b].0);
        }
    }
    lemma_map_of_at(q, i);
    let target = map_of(p).insert(k, v);
    assert forall|kk: Seq<char>| #[trigger] map_of(q).contains_key(kk) == target.contains_key(kk)
        && (map_of(q).contains_key(kk) ==> map_of(q)[kk] == target[kk]) by {
        if kk != k && map_of(p).contains_key(kk) {
            let j = choose|j: int| 0 <= j < p.len() && #[trigger] p[j].0 == kk;
            assert(q[j] == p[j]);
            lemma_map_of_at(p, j);
            lemma_map_of_at(q, j);
        }
        if kk != k && map_of(q).contains_key(kk) {
            let j = choose|j: int| 0 <= j < q.len() && #[trigger] q[j].0 == kk;
            assert(q[j] == p[j]);
            lemma_map_of_at(p, j);
            lemma_map_of_at(q, j);
        }
    }
}

/// Appending a pair with a new key adds that key to the map.
pub proof fn lemma_map_of_push(p: Seq<(Seq<char>, Seq<char>)>, k: Seq<char>, v: Seq<char>)
    requires
        keys_distinct(p),
        forall|i: int| 0 <= i < p.len() ==> #[trigger] p[i].0 != k,
    ensures
        keys_distinct(p.push((k, v))),
        map_of(p.push((k, v))) =~= map_of(p).insert(k, v),
{
    let q = p.push((k, v));
    assert(keys_distinct(q)) by {
        assert forall|a: int, b: int|
            0 <= a < q.len() && 0 <= b < q.len() && a != b implies #[trigger] q[a].0
            != #[trigger] q[b].0 by {
            if a < p.len() {
                assert(q[a] == p[a]);
            }
            if b < p.len() {
                assert(q[b] == p[b]);
            }
        }
    }
    lemma_map_of_at(q, p.len() as int);
    let target = map_of(p).insert(k, v);
    assert forall|kk: Seq<char>| #[trigger] map_of(q).contains_key(kk) == target.contains_key(kk)
        && (map_of(q).contains_key(kk) ==> map_of(q)[kk] == target[kk]) by {
        if kk != k && map_of(p).contains_key(kk) {
            let j = choose|j: int| 0 <= j < p.len() && #[trigger] p[j].0 == kk;
            assert(q[j] == p[j]);
            lemma_map_of_at(p, j);
            lemma_map_of_at(q, j);
        }
        if kk != k && map_of(q).contains_key(kk) {
            let j = choose|j: int| 0 <= j < q.len() && #[trigger] q[j].0 == kk;
            assert(j < p.len());
            assert(q[j] == p[j]);
            lemma_map_of_at(p, j);
            lemma_map_of_at(q, j);
        }
    }
}

/// Key/value fields of a profile section, with at most one value per key.
pub struct FieldMap {
    entries: Vec<(String, String)>,
}

impl View for FieldMap {
    type V = Map<Seq<char>, Seq<char>>;

    closed spec fn view(&self) -> Map<Seq<char>, Seq<char>> {
        map_of(pair_views(self.entries@))
    }
}

impl FieldMap {
    #[verifier::type_invariant]
    closed spec fn inv(&self) -> bool {
        keys_distinct(pair_views(self.entries@))
    }

    /// An empty map.
    pub fn new() -> (m: Self)
        ensures
            m@ == Map::<Seq<char>, Seq<char>>::empty(),
    {
        let m = FieldMap { entries: Vec::new() };
        assert(m@ =~= Map::<Seq<char>, Seq<char>>::empty());
        m
    }

    /// Position of `key` among the stored pairs.
    fn position(&self, key: &str) -> (r: Option<usize>)
        ensures
            r matches Some(i) ==> i < self.entries@.len() && pair_views(self.entries@)[i as int].0
                == key@,
            r is None ==> forall|i: int|
                0 <= i < self.entries@.len() ==> #[trigger] pair_views(self.entries@)[i].0
                    != key@,
    {
        let mut i: usize = 0;
        while i < self.entries.len()
            invariant
                i <= self.entries@.len(),
                forall|j: int| 0 <= j < i ==> #[trigger] pair_views(self.entries@)[j].0 != key@,
            decreases self.entries@.len() - i,
        {
            if str_eq(self.entries[i].0.as_str(), key) {
                return Some(i);
            }
            i = i + 1;
        }
        None
    }

    /// The value stored for `key`, if any (`HashMap::get`).
    pub fn get(&self, key: &str) -> (r: Option<&String>)
        ensures
            r matches Some(v) ==> self@.contains_key(key@) && self@[key@] == v@,
            r is None ==> !self@.contains_key(key@),
    {
        proof {
            use_type_invariant(self);
        }
        match self.position(key) {
            Some(i) => {
                proof {
                    lemma_map_of_at(pair_views(self.entries@), i as int);
                }
                Some(&self.entries[i].1)
            },
            None => {
                proof {
                    lemma_map_of_absent(pair_views(self.entries@), key@);
                }
                None
            },
        }
    }

    /// Whether `key` has a value (`HashMap::contains_key`).
    pub fn contains_key(&self, key: &str) -> (r: bool)
        ensures
            r == self@.contains_key(key@),
    {
        self.get(key).is_some()
    }

    /// The stored key/value pairs, each key once, in insertion order of the keys.
    pub fn pairs(&self) -> (r: &[(String, String)])
        ensures
            keys_distinct(pair_views(r@)),
            map_of(pair_views(r@)) == self@,
    {
        proof {
            use_type_invariant(self);
        }
        self.entries.as_slice()
    }

    /// The number of keys (`HashMap::len`).
    pub fn len(&self) -> (r: usize)
        ensures
            r == self@.len(),
    {
        proof {
            use_type_invariant(self);
            let p = pair_views(self.entries@);
            let keys = p.map_values(|e: (Seq<char>, Seq<char>)| e.0);
            assert(keys_distinct(p));
            assert(keys.no_duplicates()) by {
                assert forall|a: int, b: int|
                    0 <= a < keys.len() && 0 <= b < keys.len() && a != b implies keys[a]
                    != keys[b] by {
                    assert(keys[a] == p[a].0);
                    assert(keys[b] == p[b].0);
                    assert(p[a].0 != p[b].0);
                }
            }
            keys.unique_seq_to_set();
            assert(self@.dom() =~= keys.to_set()) by {
                assert forall|k: Seq<char>| self@.dom().contains(k) implies keys.to_set().contains(
                    k,
                ) by {
                    let j = choose|j: int| 0 <= j < p.len() && #[trigger] p[j].0 == k;
                    assert(keys[j] == k);
                }
                assert forall|k: Seq<char>| keys.to_set().contains(k) implies self@.dom().contains(
                    k,
                ) by {
                    let j = choose|j: int| 0 <= j < keys.len() && keys[j] == k;
                    assert(p[j].0 == k);
                }
            }
        }
        self.entries.len()
    }

    /// Sets the value of `key`, replacing any earlier value (`HashMap::insert`).
    pub fn insert(&mut self, key: String, value: String)
        ensures
            final(self)@ == old(self)@.insert(key@, value@),
    {
        proof {
            use_type_invariant(&*self);
        }
        let ghost p = pair_views(self.entries@);
        let pos = self.position(key.as_str());
        let mut entries: Vec<(String, String)> = Vec::new();
        std::mem::swap(&mut entries, &mut self.entries);
        match pos {
            Some(i) => {
                proof {
                    lemma_map_of_update(p, i as int, value@);
                }
                entries.set(i, (key, value));
                assert(pair_views(entries@) =~= p.update(i as int, (p[i as int].0, value@)));
                self.entries = entries;
            },
            None => {
                proof {
                    lemma_map_of_push(p, key@, value@);
                }
                entries.push((key, value));
                assert(pair_views(entries@) =~= p.push((key@, value@)));
                self.entries = entries;
            },
        }
    }

    /// Overlays the fields of `other` on this map, leaving out `skip` if given:
    /// each copied key takes `other`'s value.
    pub fn overlay(&mut self, other: &FieldMap, skip: Option<&str>)
        ensures
            final(self)@ == old(self)@.union_prefer_right(
                match skip {
                    Some(s) => other@.remove(s@),
                    None => other@,
                },
            ),
    {
        proof {
            use_type_invariant(other);
        }
        let ghost base = self@;
        let ghost p = pair_views(other.entries@);
        let ghost dropped = match skip {
            Some(s) => Set::empty().insert(s@),
            None => Set::<Seq<char>>::empty(),
        };
        let mut i: usize = 0;
        while i < other.entries.len()
            invariant
                i <= other.entries@.len(),
                p == pair_views(other.entries@),
                keys_distinct(p),
                dropped == match skip {
                    Some(s) => Set::empty().insert(s@),
                    None => Set::<Seq<char>>::empty(),
                },
                self@ == base.union_prefer_right(map_of(p.take(i as int)).remove_keys(dropped)),
            decreases other.entries@.len() - i,
        {
            let ghost before = self@;
            let ghost q = p.take(i as int);
            assert(keys_distinct(q));
            assert forall|j: int| 0 <= j < q.len() implies #[trigger] q[j].0 != p[i as int].0 by {
                assert(q[j] == p[j]);
            }
            proof {
                lemma_map_of_push(q, p[i as int].0, p[i as int].1);
                assert(p.take(i + 1) =~= q.push(p[i as int]));
            }
            let is_skipped = match skip {
                Some(s) => str_eq(other.entries[i].0.as_str(), s),
                None => false,
            };
            if !is_skipped {
                self.insert(other.entries[i].0.clone(), other.entries[i].1.clone());
            }
            assert(self@ =~= base.union_prefer_right(
                map_of(p.take(i + 1)).remove_keys(dropped),
            ));
            i = i + 1;
        }
        assert(p.take(other.entries@.len() as int) =~= p);
        assert(self@ =~= base.union_prefer_right(
            match skip {
                Some(s) => other@.remove(s@),
                None => other@,
            },
        ));
    }
}

} // verus!

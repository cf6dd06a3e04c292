//! A map from page addresses to values, kept sorted by address.
//!
//! The copy-on-write page store, the watchpoint records and the extended page
//! table are all keyed by page-aligned guest physical addresses and all have to
//! be walked in a reproducible order. `PageMap` is the one sorted store behind
//! them: a `BTreeMap`, with what it holds stated as a map and what a walk gives
//! stated as an ascending sequence.

use std::collections::BTreeMap;

use vstd::prelude::*;

verus! {

/// Whether `key` occurs among the entries.
pub open spec fn has_key<V>(entries: Seq<(u64, V)>, key: u64) -> bool {
    exists|i: int| 0 <= i < entries.len() && (#[trigger] entries[i]).0 == key
}

/// An index at which `key` occurs among the entries.
pub open spec fn key_index<V>(entries: Seq<(u64, V)>, key: u64) -> int {
    choose|i: int| 0 <= i < entries.len() && (#[trigger] entries[i]).0 == key
}

/// The map that a sequence of entries stands for.
pub open spec fn entries_map<V>(entries: Seq<(u64, V)>) -> Map<u64, V> {
    Map::new(|k: u64| has_key(entries, k), |k: u64| entries[key_index(entries, k)].1)
}

/// Strictly ascending by key: sorted, and no key twice.
pub open spec fn ascending<V>(entries: Seq<(u64, V)>) -> bool {
    forall|i: int, j: int|
        0 <= i < j < entries.len() ==> (#[trigger] entries[i]).0 < (#[trigger] entries[j]).0
}

/// The entries of a map in ascending order of their keys.
pub open spec fn sorted_entries<V>(map: Map<u64, V>) -> Seq<(u64, V)> {
    choose|s: Seq<(u64, V)>| #[trigger] ascending(s) && entries_map(s) == map
}

/// A sorted map keyed by `u64` addresses.
pub struct PageMap<V> {
    map: BTreeMap<u64, V>,
}

impl<V> View for PageMap<V> {
    type V = Map<u64, V>;

    closed spec fn view(&self) -> Map<u64, V> {
        self.map@
    }
}

impl<V> PageMap<V> {
    /// The entries in ascending order of their keys.
    pub open spec fn sorted(&self) -> Seq<(u64, V)> {
        sorted_entries(self@)
    }

    /// The sorted entries are the map's entries, each once, in ascending order.
    pub proof fn lemma_sorted(&self)
        ensures
            ascending(self.sorted()),
            self@ == entries_map(self.sorted()),
            forall|i: int|
                0 <= i < self.sorted().len() ==> self@.contains_key((#[trigger] self.sorted()[i]).0)
                    && self@[self.sorted()[i].0] == self.sorted()[i].1,
            forall|k: u64| #[trigger]
                self@.contains_key(k) ==> exists|i: int|
                    0 <= i < self.sorted().len() && (#[trigger] self.sorted()[i]).0 == k,
            self@.dom().finite(),
            self@.dom().len() == self.sorted().len(),
    {
        lemma_sorted_entries(self@);
    }

    /// An empty map.
    pub fn new() -> (m: Self)
        ensures
            m@ == Map::<u64, V>::empty(),
    {
        PageMap { map: BTreeMap::new() }
    }

    /// Number of entries.
    pub fn len(&self) -> (n: usize)
        ensures
            n == self@.dom().len(),
    {
        self.map.len()
    }

    /// The entries in ascending order of their keys.
    pub fn entries(&self) -> (r: Vec<(u64, &V)>)
        ensures
            r@.len() == self.sorted().len(),
            forall|i: int|
                0 <= i < r@.len() ==> (#[trigger] r@[i]).0 == self.sorted()[i].0 && *r@[i].1
                    == self.sorted()[i].1,
    {
        let mut out: Vec<(u64, &V)> = Vec::new();
        let iter = self.map.iter();
        let ghost all = vstd::std_specs::iter::IteratorSpec::remaining(&iter);
        let ghost keys = all.map_values(|kv: (&u64, &V)| *kv.0);
        proof {
            lemma_increasing(keys);
        }
        for kv in it: iter
            invariant
                it.seq() == all,
                out@.len() == it.index(),
                forall|i: int|
                    0 <= i < out@.len() ==> (#[trigger] out@[i]).0 == *all[i].0 && out@[i].1
                        == all[i].1,
        {
            out.push((*kv.0, kv.1));
        }
        proof {
            let s = Seq::new(out@.len(), |i: int| (out@[i].0, *out@[i].1));
            assert forall|i: int, j: int| 0 <= i < j < s.len() implies (#[trigger] s[i]).0 < (
            #[trigger] s[j]).0 by {
                assert(keys[i] == *all[i].0 && keys[j] == *all[j].0);
            }
            assert forall|i: int| 0 <= i < s.len() implies self@.contains_key((#[trigger] s[i]).0)
                && self@[s[i].0] == s[i].1 by {
                assert(self@.contains_key(*all[i].0));
            }
            lemma_all_entries(s, self@);
        }
        out
    }

    /// Whether `key` is in the map.
    pub fn contains_key(&self, key: u64) -> (r: bool)
        ensures
            r == self@.contains_key(key),
    {
        self.map.contains_key(&key)
    }

    /// The value at `key`.
    pub fn get(&self, key: u64) -> (r: Option<&V>)
        ensures
            match r {
                Some(v) => self@.contains_key(key) && self@[key] == *v,
                None => !self@.contains_key(key),
            },
    {
        self.map.get(&key)
    }

    /// The value at `key`, for writing.
    pub fn get_mut(&mut self, key: u64) -> (r: Option<&mut V>)
        ensures
            match r {
                Some(v) => {
                    &&& old(self)@.contains_key(key)
                    &&& *v == old(self)@[key]
                    &&& final(self)@ == old(self)@.insert(key, *final(v))
                },
                None => !old(self)@.contains_key(key) && final(self)@ == old(self)@,
            },
    {
        value_mut(&mut self.map, key)
    }

    /// Store `value` at `key`. Returns whether `key` was new.
    pub fn insert(&mut self, key: u64, value: V) -> (fresh: bool)
        ensures
            final(self)@ == old(self)@.insert(key, value),
            fresh == !old(self)@.contains_key(key),
    {
        self.map.insert(key, value).is_none()
    }

    /// Drop the entry at `key`. Returns whether there was one.
    pub fn remove(&mut self, key: u64) -> (present: bool)
        ensures
            final(self)@ == old(self)@.remove(key),
            present == old(self)@.contains_key(key),
    {
        self.map.remove(&key).is_some()
    }
}

/// `BTreeMap::get_mut`: a mutable reference to the value at `key`, if the map has
/// one. What is written through it becomes the value at `key`; nothing else of the
/// map changes.
#[verifier::external_body]
fn value_mut<V>(map: &mut BTreeMap<u64, V>, key: u64) -> (r: Option<&mut V>)
    ensures
        match r {
            Some(v) => {
                &&& old(map)@.contains_key(key)
                &&& *v == old(map)@[key]
                &&& final(map)@ == old(map)@.insert(key, *final(v))
            },
            None => !old(map)@.contains_key(key) && final(map)@ == old(map)@,
        },
{
    map.get_mut(&key)
}

/// Keys that a `BTreeMap` walks are strictly ascending.
proof fn lemma_increasing(keys: Seq<u64>)
    requires
        vstd::std_specs::btree::increasing_seq(keys),
    ensures
        forall|i: int, j: int|
            0 <= i < j < keys.len() ==> (#[trigger] keys[i]) < (#[trigger] keys[j]),
{
    assert forall|i: int, j: int| 0 <= i < j < keys.len() implies (#[trigger] keys[i]) < (
    #[trigger] keys[j]) by {
        assert(vstd::std_specs::cmp::OrdSpec::cmp_spec(&keys[i], &keys[j]) is Less);
    }
}

/// In an ascending sequence each entry is found under its own key.
proof fn lemma_index<V>(s: Seq<(u64, V)>, i: int)
    requires
        ascending(s),
        0 <= i < s.len(),
    ensures
        has_key(s, s[i].0),
        key_index(s, s[i].0) == i,
        entries_map(s).contains_key(s[i].0),
        entries_map(s)[s[i].0] == s[i].1,
{
    let k = key_index(s, s[i].0);
    assert(0 <= k < s.len() && s[k].0 == s[i].0);
    if k < i {
        assert(s[k].0 < s[i].0);
    } else if i < k {
        assert(s[i].0 < s[k].0);
    }
}

/// Inserting an entry between its neighbours is inserting under its key.
proof fn lemma_insert<V>(s: Seq<(u64, V)>, i: int, key: u64, v: V)
    requires
        ascending(s),
        0 <= i <= s.len(),
        forall|j: int| 0 <= j < i ==> (#[trigger] s[j]).0 < key,
        forall|j: int| i <= j < s.len() ==> (#[trigger] s[j]).0 > key,
    ensures
        ascending(s.insert(i, (key, v))),
        entries_map(s.insert(i, (key, v))) == entries_map(s).insert(key, v),
        !entries_map(s).contains_key(key),
{
    let t = s.insert(i, (key, v));
    assert forall|a: int, b: int| 0 <= a < b < t.len() implies (#[trigger] t[a]).0 < (
    #[trigger] t[b]).0 by {
        let sa = if a < i { a } else { a - 1 };
        let sb = if b < i { b } else { b - 1 };
        if a != i {
            assert(t[a] == s[sa]);
        }
        if b != i {
            assert(t[b] == s[sb]);
        }
    }
    let a = entries_map(t);
    let b = entries_map(s).insert(key, v);
    assert(t[i].0 == key);
    lemma_index(t, i);
    assert forall|k: u64|
        #![trigger a.dom().contains(k)]
        #![trigger b.dom().contains(k)]
        #![trigger a[k]]
        a.dom().contains(k) == b.dom().contains(k) && (a.dom().contains(k) ==> a[k] == b[k]) by {
        if has_key(s, k) {
            let j = key_index(s, k);
            let tj = if j < i { j } else { j + 1 };
            assert(t[tj] == s[j]);
            lemma_index(t, tj);
        }
        if has_key(t, k) && k != key {
            let j = key_index(t, k);
            let sj = if j < i { j } else { j - 1 };
            assert(s[sj] == t[j]);
            lemma_index(s, sj);
        }
    }
    assert(a =~= b);
}

/// Dropping an entry is removing its key.
proof fn lemma_remove<V>(s: Seq<(u64, V)>, i: int)
    requires
        ascending(s),
        0 <= i < s.len(),
    ensures
        ascending(s.remove(i)),
        entries_map(s.remove(i)) == entries_map(s).remove(s[i].0),
{
    let t = s.remove(i);
    let key = s[i].0;
    assert forall|a: int, b: int| 0 <= a < b < t.len() implies (#[trigger] t[a]).0 < (
    #[trigger] t[b]).0 by {
        let sa = if a < i { a } else { a + 1 };
        let sb = if b < i { b } else { b + 1 };
        assert(t[a] == s[sa] && t[b] == s[sb]);
    }
    let a = entries_map(t);
    let b = entries_map(s).remove(key);
    assert forall|k: u64|
        #![trigger a.dom().contains(k)]
        #![trigger b.dom().contains(k)]
        #![trigger a[k]]
        a.dom().contains(k) == b.dom().contains(k) && (a.dom().contains(k) ==> a[k] == b[k]) by {
        if has_key(s, k) && k != key {
            let j = key_index(s, k);
            let tj = if j < i { j } else { j - 1 };
            assert(t[tj] == s[j]);
            lemma_index(t, tj);
        }
        if has_key(t, k) {
            let j = key_index(t, k);
            let sj = if j < i { j } else { j + 1 };
            assert(s[sj] == t[j]);
            lemma_index(s, sj);
            assert(s[sj].0 != key) by {
                if sj < i {
                    assert(s[sj].0 < s[i].0);
                } else {
                    assert(s[i].0 < s[sj].0);
                }
            }
        }
    }
    assert(a =~= b);
}

/// An ascending sequence has as many keys as entries.
proof fn lemma_domain<V>(s: Seq<(u64, V)>)
    requires
        ascending(s),
    ensures
        entries_map(s).dom().finite(),
        entries_map(s).dom().len() == s.len(),
    decreases s.len(),
{
    if s.len() == 0 {
        assert(entries_map(s).dom() =~= Set::<u64>::empty());
    } else {
        let i = s.len() - 1;
        let t = s.remove(i);
        lemma_remove(s, i);
        lemma_domain(t);
        lemma_index(s, i);
        assert(entries_map(s).dom() =~= entries_map(t).dom().insert(s[i].0));
    }
}

/// Where a new key belongs in an ascending sequence.
proof fn lemma_place<V>(s: Seq<(u64, V)>, key: u64) -> (i: int)
    requires
        ascending(s),
        !has_key(s, key),
    ensures
        0 <= i <= s.len(),
        forall|j: int| 0 <= j < i ==> (#[trigger] s[j]).0 < key,
        forall|j: int| i <= j < s.len() ==> (#[trigger] s[j]).0 > key,
    decreases s.len(),
{
    if s.len() == 0 {
        0
    } else {
        assert(s.last().0 != key);
        if s.last().0 < key {
            assert forall|j: int| 0 <= j < s.len() implies (#[trigger] s[j]).0 < key by {
                if j < s.len() - 1 {
                    assert(s[j].0 < s[s.len() - 1].0);
                }
            }
            s.len() as int
        } else {
            let t = s.drop_last();
            assert(forall|j: int| 0 <= j < t.len() ==> t[j] == s[j]);
            let i = lemma_place(t, key);
            assert forall|j: int| 0 <= j < i implies (#[trigger] s[j]).0 < key by {
                assert(t[j].0 < key);
            }
            assert forall|j: int| i <= j < s.len() implies (#[trigger] s[j]).0 > key by {
                if j < t.len() {
                    assert(t[j].0 > key);
                }
            }
            i
        }
    }
}

/// A finite map has its entries in ascending order.
proof fn lemma_can_be_sorted<V>(map: Map<u64, V>) -> (s: Seq<(u64, V)>)
    requires
        map.dom().finite(),
    ensures
        ascending(s),
        entries_map(s) == map,
    decreases map.dom().len(),
{
    if map.dom().len() == 0 {
        let s = Seq::<(u64, V)>::empty();
        assert(map.dom() =~= Set::<u64>::empty());
        assert(entries_map(s) =~= map);
        s
    } else {
        let key = map.dom().choose();
        let rest = lemma_can_be_sorted(map.remove(key));
        assert(!entries_map(rest).contains_key(key));
        let i = lemma_place(rest, key);
        lemma_insert(rest, i, key, map[key]);
        assert(map.remove(key).insert(key, map[key]) =~= map);
        rest.insert(i, (key, map[key]))
    }
}

/// There is one ascending order of a map's entries.
proof fn lemma_one_order<V>(s: Seq<(u64, V)>, t: Seq<(u64, V)>)
    requires
        ascending(s),
        ascending(t),
        entries_map(s) == entries_map(t),
    ensures
        s == t,
    decreases s.len(),
{
    lemma_domain(s);
    lemma_domain(t);
    if s.len() > 0 {
        let n = s.len() - 1;
        lemma_index(s, n);
        lemma_index(t, n);
        let i = key_index(t, s[n].0);
        let j = key_index(s, t[n].0);
        assert(has_key(t, s[n].0) && has_key(s, t[n].0));
        if i < n {
            assert(t[i].0 < t[n].0);
        }
        if j < n {
            assert(s[j].0 < s[n].0);
        }
        assert(s[n] == t[n]);
        lemma_remove(s, n);
        lemma_remove(t, n);
        lemma_one_order(s.remove(n), t.remove(n));
        assert(s =~= s.remove(n).push(s[n]));
        assert(t =~= t.remove(n).push(t[n]));
    }
}

/// What the sorted entries of a finite map are.
proof fn lemma_sorted_entries<V>(map: Map<u64, V>)
    requires
        map.dom().finite(),
    ensures
        ascending(sorted_entries(map)),
        entries_map(sorted_entries(map)) == map,
        sorted_entries(map).len() == map.dom().len(),
        forall|i: int|
            0 <= i < sorted_entries(map).len() ==> map.contains_key(
                (#[trigger] sorted_entries(map)[i]).0,
            ) && map[sorted_entries(map)[i].0] == sorted_entries(map)[i].1,
{
    let s = lemma_can_be_sorted(map);
    assert(ascending(s) && entries_map(s) == map);
    let t = sorted_entries(map);
    lemma_domain(t);
    assert forall|i: int| 0 <= i < t.len() implies map.contains_key((#[trigger] t[i]).0)
        && map[t[i].0] == t[i].1 by {
        lemma_index(t, i);
    }
}

/// Ascending entries of a map, as many as it has, are its sorted entries.
proof fn lemma_all_entries<V>(s: Seq<(u64, V)>, map: Map<u64, V>)
    requires
        map.dom().finite(),
        ascending(s),
        s.len() == map.dom().len(),
        forall|i: int|
            0 <= i < s.len() ==> map.contains_key((#[trigger] s[i]).0) && map[s[i].0] == s[i].1,
    ensures
        s == sorted_entries(map),
{
    let m = entries_map(s);
    lemma_domain(s);
    assert forall|k: u64| m.dom().contains(k) implies map.dom().contains(k) by {
        assert(has_key(s, k));
        assert(map.contains_key(s[key_index(s, k)].0));
    }
    vstd::set_lib::lemma_subset_equality(m.dom(), map.dom());
    assert forall|k: u64| m.dom().contains(k) implies #[trigger] m[k] == map[k] by {
        let i = key_index(s, k);
        assert(has_key(s, k));
        assert(map[s[i].0] == s[i].1);
    }
    assert(m =~= map);
    lemma_sorted_entries(map);
    lemma_one_order(s, sorted_entries(map));
}

} // verus!

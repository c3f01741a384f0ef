//! A map from text keys to values, kept in ascending key order.

use vstd::prelude::*;
use vstd::string::*;
use crate::text::{
    compare_keys, key_lt, lemma_key_lt_irreflexive, lemma_key_lt_transitive, KeyOrder,
};

verus! {

/// Whether every key comes before all the keys after it.
pub open spec fn strictly_ascending(keys: Seq<Seq<char>>) -> bool {
    forall|i: int, j: int| 0 <= i < j < keys.len() ==> key_lt(#[trigger] keys[i], #[trigger] keys[j])
}

/// The map that pairs each key with the view of the value at the same position.
pub open spec fn entries_map<V: View>(keys: Seq<Seq<char>>, vals: Seq<V>) -> Map<Seq<char>, V::V> {
    Map::new(|k: Seq<char>| keys.contains(k), |k: Seq<char>| vals[keys.index_of(k)]@)
}

/// In an ascending key sequence no key occurs twice, so each key has the
/// value at its own position.
pub proof fn lemma_entries_map_at<V: View>(keys: Seq<Seq<char>>, vals: Seq<V>, i: int)
    requires
        strictly_ascending(keys),
        0 <= i < keys.len(),
    ensures
        entries_map(keys, vals).contains_key(keys[i]),
        entries_map(keys, vals)[keys[i]] == vals[i]@,
        keys.index_of(keys[i]) == i,
{
    let j = keys.index_of(keys[i]);
    assert(keys.contains(keys[i]));
    lemma_key_lt_irreflexive(keys[i]);
    if j < i {
        assert(key_lt(keys[j], keys[i]));
    } else if i < j {
        assert(key_lt(keys[i], keys[j]));
    }
}

/// Whether `k` is among the first `i` keys.
pub open spec fn among_first(keys: Seq<Seq<char>>, i: int, k: Seq<char>) -> bool {
    exists|j: int| 0 <= j < i && #[trigger] keys[j] == k
}

/// Whether `keys` lists the elements of `dom` in ascending order.
pub open spec fn lists(keys: Seq<Seq<char>>, dom: Set<Seq<char>>) -> bool {
    &&& strictly_ascending(keys)
    &&& forall|k: Seq<char>| keys.contains(k) <==> dom.contains(k)
}

/// The elements of a finite set of keys in ascending order.
pub open spec fn sorted_keys(dom: Set<Seq<char>>) -> Seq<Seq<char>> {
    choose|keys: Seq<Seq<char>>| lists(keys, dom)
}

/// Two ascending sequences with the same elements are the same sequence.
pub proof fn lemma_ascending_unique(a: Seq<Seq<char>>, b: Seq<Seq<char>>)
    requires
        strictly_ascending(a),
        strictly_ascending(b),
        forall|k: Seq<char>| a.contains(k) <==> b.contains(k),
    ensures
        a == b,
    decreases a.len(),
{
    if a.len() == 0 {
        if b.len() > 0 {
            assert(b.contains(b[0]));
        }
        assert(a =~= b);
    } else {
        assert(a.contains(a[0]));
        assert(b.contains(a[0]));
        let j = choose|j: int| 0 <= j < b.len() && b[j] == a[0];
        assert(b.contains(b[0]));
        let i = choose|i: int| 0 <= i < a.len() && a[i] == b[0];
        lemma_key_lt_irreflexive(a[0]);
        if j > 0 {
            assert(key_lt(b[0], b[j]));
            if i > 0 {
                assert(key_lt(a[0], a[i]));
                lemma_key_lt_transitive(a[0], a[i], a[0]);
            }
        }
        assert(a[0] == b[0]);
        let ta = a.drop_first();
        let tb = b.drop_first();
        assert forall|k: Seq<char>| ta.contains(k) <==> tb.contains(k) by {
            lemma_key_lt_irreflexive(k);
            if ta.contains(k) {
                let p = choose|p: int| 0 <= p < ta.len() && ta[p] == k;
                assert(a[p + 1] == k);
                assert(key_lt(a[0], a[p + 1]));
                assert(b.contains(k));
                let q = choose|q: int| 0 <= q < b.len() && b[q] == k;
                assert(q > 0);
                assert(tb[q - 1] == k);
            }
            if tb.contains(k) {
                let p = choose|p: int| 0 <= p < tb.len() && tb[p] == k;
                assert(b[p + 1] == k);
                assert(key_lt(b[0], b[p + 1]));
                assert(a.contains(k));
                let q = choose|q: int| 0 <= q < a.len() && a[q] == k;
                assert(q > 0);
                assert(ta[q - 1] == k);
            }
        }
        assert forall|p: int, q: int| 0 <= p < q < ta.len() implies key_lt(
            #[trigger] ta[p],
            #[trigger] ta[q],
        ) by {
            assert(key_lt(a[p + 1], a[q + 1]));
        }
        assert forall|p: int, q: int| 0 <= p < q < tb.len() implies key_lt(
            #[trigger] tb[p],
            #[trigger] tb[q],
        ) by {
            assert(key_lt(b[p + 1], b[q + 1]));
        }
        lemma_ascending_unique(ta, tb);
        assert(a =~= seq![a[0]] + ta);
        assert(b =~= seq![b[0]] + tb);
    }
}

/// An ascending listing of a set is the set's sorted keys.
pub proof fn lemma_sorted_keys(keys: Seq<Seq<char>>, dom: Set<Seq<char>>)
    requires
        lists(keys, dom),
    ensures
        sorted_keys(dom) == keys,
{
    lemma_ascending_unique(sorted_keys(dom), keys);
}

/// The keys of a map in order are the sorted keys of its view.
pub proof fn lemma_keys_of_view<V: View>(keys: Seq<Seq<char>>, vals: Seq<V>)
    requires
        strictly_ascending(keys),
    ensures
        sorted_keys(entries_map(keys, vals).dom()) == keys,
{
    lemma_sorted_keys(keys, entries_map(keys, vals).dom());
}

/// A map from text keys to values. Keys are unique and held in ascending
/// byte order, which is also the order of `key_at` and `value_at`.
#[derive(Debug, PartialEq, Eq)]
pub struct SortedMap<V> {
    entries: Vec<(String, V)>,
}

spec fn keys_of<V>(entries: Seq<(String, V)>) -> Seq<Seq<char>> {
    Seq::new(entries.len(), |i: int| entries[i].0@)
}

spec fn vals_of<V>(entries: Seq<(String, V)>) -> Seq<V> {
    Seq::new(entries.len(), |i: int| entries[i].1)
}

impl<V> SortedMap<V> {
    /// The keys, in ascending order.
    pub closed spec fn keys(&self) -> Seq<Seq<char>> {
        keys_of(self.entries@)
    }

    /// The values, each at the position of its key.
    pub closed spec fn vals(&self) -> Seq<V> {
        vals_of(self.entries@)
    }

    /// What holds of every map: one value per key, keys ascending.
    pub open spec fn well_ordered(&self) -> bool {
        &&& self.keys().len() == self.vals().len()
        &&& strictly_ascending(self.keys())
    }

    #[verifier::type_invariant]
    spec fn ordered(&self) -> bool {
        strictly_ascending(self.keys())
    }

    /// An empty map.
    pub fn new() -> (m: Self)
        ensures
            m.keys() == Seq::<Seq<char>>::empty(),
            m.vals() == Seq::<V>::empty(),
            m.well_ordered(),
    {
        let entries: Vec<(String, V)> = Vec::new();
        assert(keys_of(entries@) =~= Seq::<Seq<char>>::empty());
        let m = SortedMap { entries };
        assert(m.keys() =~= Seq::<Seq<char>>::empty());
        assert(m.vals() =~= Seq::<V>::empty());
        m
    }

    /// The number of entries.
    pub fn len(&self) -> (n: usize)
        ensures
            n == self.keys().len(),
            self.well_ordered(),
    {
        proof {
            use_type_invariant(self);
        }
        self.entries.len()
    }

    /// Whether the map has no entry.
    pub fn is_empty(&self) -> (b: bool)
        ensures
            b == (self.keys().len() == 0),
            self.well_ordered(),
    {
        proof {
            use_type_invariant(self);
        }
        self.entries.len() == 0
    }

    /// The key at position `i` of the ascending order.
    pub fn key_at(&self, i: usize) -> (k: &str)
        requires
            i < self.keys().len(),
        ensures
            k@ == self.keys()[i as int],
    {
        self.entries[i].0.as_str()
    }

    /// The value at position `i` of the ascending order.
    pub fn value_at(&self, i: usize) -> (v: &V)
        requires
            i < self.keys().len(),
        ensures
            *v == self.vals()[i as int],
    {
        &self.entries[i].1
    }

    /// The position of `key`, if the map holds it.
    pub fn position(&self, key: &str) -> (r: Option<usize>)
        ensures
            self.well_ordered(),
            match r {
                Some(i) => i < self.keys().len() && self.keys()[i as int] == key@,
                None => !self.keys().contains(key@),
            },
    {
        proof {
            use_type_invariant(self);
        }
        let n = self.entries.len();
        let mut i: usize = 0;
        while i < n
            invariant
                n == self.entries@.len(),
                i <= n,
                self.well_ordered(),
                forall|j: int| 0 <= j < i ==> self.keys()[j] != key@,
            decreases n - i,
        {
            if compare_keys(self.entries[i].0.as_str(), key) == KeyOrder::Same {
                return Some(i);
            }
            i = i + 1;
        }
        None
    }

    /// Whether the map holds `key`.
    pub fn contains_key(&self, key: &str) -> (b: bool)
        ensures
            b == self.keys().contains(key@),
            self.well_ordered(),
    {
        self.position(key).is_some()
    }
}

impl<V: Clone> Clone for SortedMap<V> {
    /// A map with the same keys, each value cloned.
    fn clone(&self) -> (r: Self)
        ensures
            r.keys() == self.keys(),
            r.vals().len() == self.vals().len(),
            forall|i: int| 0 <= i < self.vals().len() ==> cloned(self.vals()[i], #[trigger] r.vals()[i]),
    {
        proof {
            use_type_invariant(self);
        }
        let n = self.entries.len();
        let mut entries: Vec<(String, V)> = Vec::new();
        let mut i: usize = 0;
        while i < n
            invariant
                n == self.entries@.len(),
                i <= n,
                entries@.len() == i,
                forall|j: int| 0 <= j < i ==> (#[trigger] entries@[j]).0@ == self.entries@[j].0@,
                forall|j: int| 0 <= j < i ==> cloned(self.entries@[j].1, (#[trigger] entries@[j]).1),
            decreases n - i,
        {
            let key = self.entries[i].0.clone();
            let value = self.entries[i].1.clone();
            entries.push((key, value));
            i = i + 1;
        }
        proof {
            assert(keys_of(entries@) =~= keys_of(self.entries@));
        }
        SortedMap { entries }
    }
}

impl<V: View> View for SortedMap<V> {
    type V = Map<Seq<char>, V::V>;

    open spec fn view(&self) -> Map<Seq<char>, V::V> {
        entries_map(self.keys(), self.vals())
    }
}

impl<V: View> SortedMap<V> {
    /// The value stored under `key`.
    pub fn get(&self, key: &str) -> (r: Option<&V>)
        ensures
            self.well_ordered(),
            match r {
                Some(v) => self@.contains_key(key@) && v@ == self@[key@],
                None => !self@.contains_key(key@),
            },
    {
        match self.position(key) {
            Some(i) => {
                proof {
                    lemma_entries_map_at(self.keys(), self.vals(), i as int);
                }
                Some(&self.entries[i].1)
            },
            None => None,
        }
    }

    /// Stores `value` under `key`, in place of any value the key had.
    pub fn insert(&mut self, key: String, value: V)
        ensures
            final(self)@ == old(self)@.insert(key@, value@),
            final(self).well_ordered(),
    {
        proof {
            use_type_invariant(&*self);
        }
        let ghost old_keys = self.keys();
        let ghost old_vals = self.vals();
        let n = self.entries.len();
        let mut i: usize = 0;
        let mut found = false;
        while i < n
            invariant_except_break
                !found,
            invariant
                n == self.entries@.len(),
                i <= n,
                self.keys() == old_keys,
                strictly_ascending(old_keys),
                forall|j: int| 0 <= j < i ==> key_lt(old_keys[j], key@),
            ensures
                found ==> i < n && old_keys[i as int] == key@,
                !found && i < n ==> key_lt(key@, old_keys[i as int]),
            decreases n - i,
        {
            let order = compare_keys(self.entries[i].0.as_str(), key.as_str());
            if order == KeyOrder::Same {
                found = true;
                break ;
            }
            if order == KeyOrder::After {
                break ;
            }
            i = i + 1;
        }
        let mut entries: Vec<(String, V)> = Vec::new();
        proof {
            assert(keys_of(entries@) =~= Seq::<Seq<char>>::empty());
        }
        std::mem::swap(&mut entries, &mut self.entries);
        if found {
            entries.set(i, (key, value));
            proof {
                assert(keys_of(entries@) =~= old_keys);
                assert(vals_of(entries@) =~= old_vals.update(i as int, value));
                lemma_update_view(old_keys, old_vals, i as int, value);
            }
            self.entries = entries;
        } else {
            entries.insert(i, (key, value));
            proof {
                assert(keys_of(entries@) =~= old_keys.insert(i as int, key@));
                assert(vals_of(entries@) =~= old_vals.insert(i as int, value));
                lemma_insert_view(old_keys, old_vals, i as int, key@, value);
            }
            self.entries = entries;
        }
    }
}

/// Replacing the value at the position of a key changes the map at that key only.
pub proof fn lemma_update_view<V: View>(keys: Seq<Seq<char>>, vals: Seq<V>, i: int, value: V)
    requires
        strictly_ascending(keys),
        keys.len() == vals.len(),
        0 <= i < keys.len(),
    ensures
        entries_map(keys, vals.update(i, value)) == entries_map(keys, vals).insert(keys[i], value@),
{
    let a = entries_map(keys, vals.update(i, value));
    let b = entries_map(keys, vals).insert(keys[i], value@);
    assert forall|k: Seq<char>| a.contains_key(k) implies a[k] == b[k] by {
        let j = keys.index_of(k);
        lemma_entries_map_at(keys, vals, j);
        lemma_entries_map_at(keys, vals, i);
    }
    assert(a.dom() =~= b.dom()) by {
        lemma_entries_map_at(keys, vals, i);
    }
    assert(a =~= b);
}

/// Putting a new key at its place in the order adds it to the map and
/// leaves the other keys as they were.
pub proof fn lemma_insert_view<V: View>(
    keys: Seq<Seq<char>>,
    vals: Seq<V>,
    i: int,
    key: Seq<char>,
    value: V,
)
    requires
        strictly_ascending(keys),
        keys.len() == vals.len(),
        0 <= i <= keys.len(),
        forall|j: int| 0 <= j < i ==> key_lt(keys[j], key),
        i < keys.len() ==> key_lt(key, keys[i]),
    ensures
        strictly_ascending(keys.insert(i, key)),
        entries_map(keys.insert(i, key), vals.insert(i, value)) == entries_map(keys, vals).insert(
            key,
            value@,
        ),
{
    let keys2 = keys.insert(i, key);
    let vals2 = vals.insert(i, value);
    assert forall|p: int, q: int| 0 <= p < q < keys2.len() implies key_lt(
        #[trigger] keys2[p],
        #[trigger] keys2[q],
    ) by {
        if q == i {
            assert(keys2[p] == keys[p]);
        } else if p == i {
            assert(keys2[q] == keys[q - 1]);
            if q - 1 > i {
                assert(key_lt(keys[i], keys[q - 1]));
                lemma_key_lt_transitive(key, keys[i], keys[q - 1]);
            }
        } else {
            let p0 = if p < i { p } else { p - 1 };
            let q0 = if q < i { q } else { q - 1 };
            assert(keys2[p] == keys[p0]);
            assert(keys2[q] == keys[q0]);
            assert(key_lt(keys[p0], keys[q0]));
        }
    }
    let a = entries_map(keys2, vals2);
    let b = entries_map(keys, vals).insert(key, value@);
    assert forall|k: Seq<char>| a.contains_key(k) <==> b.contains_key(k) by {
        if keys2.contains(k) {
            let j = keys2.index_of(k);
            if j < i {
                assert(keys[j] == k);
            } else if j > i {
                assert(keys[j - 1] == k);
            }
        }
        if keys.contains(k) {
            let j = keys.index_of(k);
            if j < i {
                assert(keys2[j] == k);
            } else {
                assert(keys2[j + 1] == k);
            }
        }
        if k == key {
            assert(keys2[i] == k);
        }
    }
    assert forall|k: Seq<char>| a.contains_key(k) implies a[k] == b[k] by {
        let j = keys2.index_of(k);
        lemma_entries_map_at(keys2, vals2, j);
        if j < i {
            lemma_entries_map_at(keys, vals, j);
            lemma_key_lt_irreflexive(key);
        } else if j > i {
            lemma_entries_map_at(keys, vals, j - 1);
            assert(keys2[i] == key);
            assert(key_lt(keys2[i], keys2[j]));
            lemma_key_lt_irreflexive(key);
        }
    }
    assert(a.dom() =~= b.dom());
    assert(a =~= b);
}

} // verus!

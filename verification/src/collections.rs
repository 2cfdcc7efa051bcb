//! Maps and sets keyed by text.
//!
//! Both keep their entries in a vector in which no key occurs twice, and are
//! seen in contracts as a `Map` or a `Set` over the keys' characters.

use crate::text::str_eq;
use vstd::prelude::*;

verus! {

/// A finite map from texts to values of type `V`.
#[derive(Debug)]
pub struct StringMap<V> {
    entries: Vec<(String, V)>,
}

impl<V> StringMap<V> {
    #[verifier::type_invariant]
    closed spec fn distinct_keys(self) -> bool {
        forall|i: int, j: int|
            0 <= i < j < self.entries@.len() ==> self.entries@[i].0@ != self.entries@[j].0@
    }

    /// Number of entries.
    pub closed spec fn count(&self) -> nat {
        self.entries@.len()
    }

    /// The key of the `i`-th entry, in the order of first insertion.
    pub closed spec fn key_at(&self, i: int) -> Seq<char> {
        self.entries@[i].0@
    }

    /// The value of the `i`-th entry.
    pub closed spec fn value_at(&self, i: int) -> V {
        self.entries@[i].1
    }

    /// Some position that holds the key `k`.
    pub closed spec fn slot(&self, k: Seq<char>) -> int {
        choose|i: int| 0 <= i < self.entries@.len() && self.entries@[i].0@ == k
    }

    /// The map from each key to its value.
    pub closed spec fn view(&self) -> Map<Seq<char>, V> {
        Map::new(
            |k: Seq<char>| exists|i: int| 0 <= i < self.entries@.len() && self.entries@[i].0@ == k,
            |k: Seq<char>| self.entries@[self.slot(k)].1,
        )
    }

    /// The empty map.
    pub fn new() -> (m: Self)
        ensures
            m@ == Map::<Seq<char>, V>::empty(),
            m.count() == 0,
    {
        let m = StringMap { entries: Vec::new() };
        assert(m@ =~= Map::<Seq<char>, V>::empty());
        m
    }

    /// Number of entries: the number of keys of the map.
    pub fn len(&self) -> (n: usize)
        ensures
            n == self.count(),
            self@.dom().finite(),
            n == self@.dom().len(),
    {
        proof {
            use_type_invariant(self);
            let keys = self.entries@.map_values(|e: (String, V)| e.0@);
            assert(keys.no_duplicates());
            keys.unique_seq_to_set();
            vstd::seq_lib::seq_to_set_is_finite(keys);
            assert(self@.dom() =~= keys.to_set()) by {
                assert forall|k: Seq<char>| self@.dom().contains(k) implies keys.to_set().contains(
                    k,
                ) by {
                    let i = choose|i: int|
                        0 <= i < self.entries@.len() && self.entries@[i].0@ == k;
                    assert(keys[i] == k);
                }
                assert forall|k: Seq<char>| keys.to_set().contains(k) implies self@.dom().contains(
                    k,
                ) by {
                    let i = choose|i: int| 0 <= i < keys.len() && keys[i] == k;
                    assert(self.entries@[i].0@ == k);
                }
            }
        }
        self.entries.len()
    }

    /// Whether the map holds nothing.
    pub fn is_empty(&self) -> (r: bool)
        ensures
            r == (self.count() == 0),
            r == (self@ == Map::<Seq<char>, V>::empty()),
    {
        proof {
            if self.entries@.len() == 0 {
                assert(self@ =~= Map::<Seq<char>, V>::empty());
            } else {
                assert(self@.dom().contains(self.entries@[0].0@));
            }
        }
        self.entries.len() == 0
    }

    /// Key of the `i`-th entry; it is a key of the map.
    pub fn key(&self, i: usize) -> (k: &String)
        requires
            i < self.count(),
        ensures
            k@ == self.key_at(i as int),
            self@.dom().contains(k@),
    {
        &self.entries[i].0
    }

    /// Value of the `i`-th entry: the value that the map gives its key.
    pub fn value(&self, i: usize) -> (v: &V)
        requires
            i < self.count(),
        ensures
            *v == self.value_at(i as int),
            self@.dom().contains(self.key_at(i as int)),
            *v == self@[self.key_at(i as int)],
    {
        proof {
            use_type_invariant(self);
            let k = self.key_at(i as int);
            let s = self.slot(k);
            assert(0 <= s < self.entries@.len() && self.entries@[s].0@ == k);
            assert(s == i);
        }
        &self.entries[i].1
    }

    fn position(&self, key: &str) -> (r: Option<usize>)
        ensures
            match r {
                Some(i) => i < self.entries@.len() && self.entries@[i as int].0@ == key@,
                None => forall|i: int|
                    0 <= i < self.entries@.len() ==> self.entries@[i].0@ != key@,
            },
    {
        let mut i: usize = 0;
        while i < self.entries.len()
            invariant
                i <= self.entries@.len(),
                forall|j: int| 0 <= j < i ==> self.entries@[j].0@ != key@,
            decreases self.entries.len() - i,
        {
            if str_eq(self.entries[i].0.as_str(), key) {
                return Some(i);
            }
            i += 1;
        }
        None
    }

    /// Whether `key` has a value.
    pub fn contains_key(&self, key: &str) -> (r: bool)
        ensures
            r == self@.dom().contains(key@),
    {
        self.position(key).is_some()
    }

    /// The value of `key`, if it has one.
    pub fn get(&self, key: &str) -> (r: Option<&V>)
        ensures
            match r {
                Some(v) => self@.dom().contains(key@) && *v == self@[key@],
                None => !self@.dom().contains(key@),
            },
    {
        proof {
            use_type_invariant(self);
        }
        match self.position(key) {
            Some(i) => {
                proof {
                    let s = self.slot(key@);
                    assert(0 <= s < self.entries@.len() && self.entries@[s].0@ == key@);
                    assert(s == i);
                }
                Some(&self.entries[i].1)
            },
            None => None,
        }
    }

    /// Gives `key` the value `value`, in place of the one it had, if any.
    pub fn insert(&mut self, key: String, value: V)
        ensures
            final(self)@ == old(self)@.insert(key@, value),
    {
        proof {
            use_type_invariant(&*self);
        }
        let ghost before = self.entries@;
        match self.position(key.as_str()) {
            Some(i) => {
                let mut entries: Vec<(String, V)> = Vec::new();
                core::mem::swap(&mut self.entries, &mut entries);
                entries.set(i, (key, value));
                self.entries = entries;
                assert(final(self)@ =~= old(self)@.insert(key@, value)) by {
                    let after = self.entries@;
                    assert forall|k: Seq<char>| #[trigger]
                        final(self)@.dom().contains(k) == old(self)@.insert(
                            key@,
                            value,
                        ).dom().contains(k) by {
                        if old(self)@.dom().contains(k) {
                            let j = old(self).slot(k);
                            assert(after[j].0@ == k);
                        }
                        if final(self)@.dom().contains(k) {
                            let j = final(self).slot(k);
                            assert(before[j].0@ == k);
                        }
                    }
                    assert forall|k: Seq<char>| #[trigger]
                        final(self)@.dom().contains(k) implies final(self)@[k] == old(self)@.insert(key@, value)[k] by {
                        let j = final(self).slot(k);
                        assert(after[j].0@ == k);
                        if k != key@ {
                            assert(before[j].0@ == k);
                            let j0 = old(self).slot(k);
                            assert(before[j0].0@ == k);
                            assert(j0 == j);
                        } else {
                            assert(j == i);
                        }
                    }
                }
            },
            None => {
                let mut entries: Vec<(String, V)> = Vec::new();
                core::mem::swap(&mut self.entries, &mut entries);
                entries.push((key, value));
                self.entries = entries;
                assert(final(self)@ =~= old(self)@.insert(key@, value)) by {
                    let after = self.entries@;
                    let n = before.len() as int;
                    assert(after[n].0@ == key@);
                    assert forall|k: Seq<char>| #[trigger]
                        final(self)@.dom().contains(k) == old(self)@.insert(
                            key@,
                            value,
                        ).dom().contains(k) by {
                        if old(self)@.dom().contains(k) {
                            let j = old(self).slot(k);
                            assert(after[j].0@ == k);
                        }
                        if final(self)@.dom().contains(k) && k != key@ {
                            let j = final(self).slot(k);
                            assert(before[j].0@ == k);
                        }
                    }
                    assert forall|k: Seq<char>| #[trigger]
                        final(self)@.dom().contains(k) implies final(self)@[k] == old(self)@.insert(key@, value)[k] by {
                        let j = final(self).slot(k);
                        assert(after[j].0@ == k);
                        if k != key@ {
                            assert(before[j].0@ == k);
                            let j0 = old(self).slot(k);
                            assert(before[j0].0@ == k);
                            assert(j0 == j);
                        } else {
                            assert(j == n);
                        }
                    }
                }
            },
        }
    }

    /// Takes `key` and its value out of the map; returns the value it had.
    pub fn remove(&mut self, key: &str) -> (r: Option<V>)
        ensures
            final(self)@ == old(self)@.remove(key@),
            match r {
                Some(v) => old(self)@.dom().contains(key@) && v == old(self)@[key@],
                None => !old(self)@.dom().contains(key@),
            },
    {
        proof {
            use_type_invariant(&*self);
        }
        let ghost before = self.entries@;
        match self.position(key) {
            Some(i) => {
                proof {
                    let s = old(self).slot(key@);
                    assert(0 <= s < before.len() && before[s].0@ == key@);
                    assert(s == i);
                }
                let mut entries: Vec<(String, V)> = Vec::new();
                core::mem::swap(&mut self.entries, &mut entries);
                let gone = entries.remove(i);
                self.entries = entries;
                assert(final(self)@ =~= old(self)@.remove(key@)) by {
                    let after = self.entries@;
                    assert forall|j: int| 0 <= j < after.len() implies after[j] == before[if j
                        < i {
                        j
                    } else {
                        j + 1
                    }] by {}
                    assert forall|k: Seq<char>| #[trigger]
                        final(self)@.dom().contains(k) == old(self)@.remove(key@).dom().contains(
                            k,
                        ) by {
                        if old(self)@.dom().contains(k) && k != key@ {
                            let j = old(self).slot(k);
                            let j2 = if j < i {
                                j
                            } else {
                                j - 1
                            };
                            assert(after[j2].0@ == k);
                        }
                        if final(self)@.dom().contains(k) {
                            let j = final(self).slot(k);
                            let j0 = if j < i {
                                j
                            } else {
                                j + 1
                            };
                            assert(before[j0].0@ == k);
                        }
                    }
                    assert forall|k: Seq<char>| #[trigger]
                        final(self)@.dom().contains(k) implies final(self)@[k] == old(self)@.remove(key@)[k] by {
                        let j = final(self).slot(k);
                        let j0 = if j < i {
                            j
                        } else {
                            j + 1
                        };
                        assert(before[j0].0@ == k);
                        let j1 = old(self).slot(k);
                        assert(before[j1].0@ == k);
                        assert(j1 == j0);
                    }
                }
                Some(gone.1)
            },
            None => {
                assert(final(self)@ =~= old(self)@.remove(key@));
                None
            },
        }
    }

    /// Takes every entry out.
    pub fn clear(&mut self)
        ensures
            final(self)@ == Map::<Seq<char>, V>::empty(),
            final(self).count() == 0,
    {
        self.entries = Vec::new();
        assert(final(self)@ =~= Map::<Seq<char>, V>::empty());
    }
}

impl StringMap<String> {
    /// The map from each key to the characters of its value.
    pub open spec fn texts(&self) -> Map<Seq<char>, Seq<char>> {
        self@.map_values(|v: String| v@)
    }

    /// Gives `key` the value `value`.
    pub fn insert_text(&mut self, key: &str, value: String)
        ensures
            final(self).texts() == old(self).texts().insert(key@, value@),
    {
        self.insert(String::from_str(key), value);
        assert(final(self).texts() =~= old(self).texts().insert(key@, value@));
    }

    /// The value of `key` as a text, if it has one.
    pub fn get_text(&self, key: &str) -> (r: Option<&String>)
        ensures
            match r {
                Some(v) => self.texts().dom().contains(key@) && v@ == self.texts()[key@],
                None => !self.texts().dom().contains(key@),
            },
    {
        self.get(key)
    }
}

impl Clone for StringMap<String> {
    fn clone(&self) -> (r: Self)
        ensures
            r@ == self@,
    {
        proof {
            use_type_invariant(self);
        }
        let mut entries: Vec<(String, String)> = Vec::new();
        let mut i: usize = 0;
        while i < self.entries.len()
            invariant
                i <= self.entries@.len(),
                entries@ == self.entries@.take(i as int),
            decreases self.entries.len() - i,
        {
            entries.push((self.entries[i].0.clone(), self.entries[i].1.clone()));
            assert(self.entries@.take(i + 1) == self.entries@.take(i as int).push(
                self.entries@[i as int],
            ));
            i += 1;
        }
        assert(self.entries@.take(self.entries@.len() as int) == self.entries@);
        let r = StringMap { entries };
        assert(r@ =~= self@) by {
            assert forall|k: Seq<char>| r@.dom().contains(k) implies r@[k] == self@[k] by {
                assert(r.slot(k) == self.slot(k));
            }
        }
        r
    }
}

/// A finite set of texts.
#[derive(Debug)]
pub struct StringSet {
    items: StringMap<()>,
}

impl StringSet {
    /// The texts in the set.
    pub closed spec fn view(&self) -> Set<Seq<char>> {
        self.items@.dom()
    }

    /// Number of texts in the set.
    pub closed spec fn count(&self) -> nat {
        self.items.count()
    }

    /// The `i`-th text, in the order of insertion.
    pub closed spec fn item_at(&self, i: int) -> Seq<char> {
        self.items.key_at(i)
    }

    /// The empty set.
    pub fn new() -> (s: Self)
        ensures
            s@ == Set::<Seq<char>>::empty(),
            s.count() == 0,
    {
        let s = StringSet { items: StringMap::new() };
        assert(s@ =~= Set::<Seq<char>>::empty());
        s
    }

    /// Number of texts in the set.
    pub fn len(&self) -> (n: usize)
        ensures
            n == self.count(),
            self@.finite(),
            n == self@.len(),
    {
        self.items.len()
    }

    /// Whether the set holds nothing.
    pub fn is_empty(&self) -> (r: bool)
        ensures
            r == (self.count() == 0),
            r == (self@ == Set::<Seq<char>>::empty()),
    {
        let r = self.items.is_empty();
        proof {
            if r {
                assert(self@ =~= Set::<Seq<char>>::empty());
            } else {
                assert(self.items@.dom() != Set::<Seq<char>>::empty()) by {
                    if self.items@.dom() == Set::<Seq<char>>::empty() {
                        assert(self.items@ =~= Map::<Seq<char>, ()>::empty());
                    }
                }
            }
        }
        r
    }

    /// The `i`-th text.
    pub fn item(&self, i: usize) -> (k: &String)
        requires
            i < self.count(),
        ensures
            k@ == self.item_at(i as int),
            self@.contains(k@),
    {
        self.items.key(i)
    }

    /// Whether `key` is in the set.
    pub fn contains(&self, key: &str) -> (r: bool)
        ensures
            r == self@.contains(key@),
    {
        self.items.contains_key(key)
    }

    /// Puts `key` into the set.
    pub fn insert(&mut self, key: String)
        ensures
            final(self)@ == old(self)@.insert(key@),
    {
        self.items.insert(key, ());
        assert(final(self)@ =~= old(self)@.insert(key@));
    }

    /// Takes `key` out of the set; says whether it was there.
    pub fn remove(&mut self, key: &str) -> (r: bool)
        ensures
            final(self)@ == old(self)@.remove(key@),
            r == old(self)@.contains(key@),
    {
        let gone = self.items.remove(key);
        assert(final(self)@ =~= old(self)@.remove(key@));
        gone.is_some()
    }

    /// Takes every text out.
    pub fn clear(&mut self)
        ensures
            final(self)@ == Set::<Seq<char>>::empty(),
            final(self).count() == 0,
    {
        self.items.clear();
        assert(final(self)@ =~= Set::<Seq<char>>::empty());
    }
}

} // verus!

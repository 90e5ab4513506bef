//! A small map keyed by text that keeps its entries in the order in which they were inserted.

use crate::text::str_eq;
use vstd::prelude::*;

verus! {

/// A value that can be copied out in full: the copy equals the value it was made from.
pub trait Duplicate: Sized {
    /// A copy that equals `self`.
    fn duplicate(&self) -> (r: Self)
        ensures
            r == *self,
    ;
}

impl Duplicate for String {
    fn duplicate(&self) -> (r: String) {
        self.clone()
    }
}

impl Duplicate for bool {
    fn duplicate(&self) -> (r: bool) {
        *self
    }
}

impl<T: Duplicate> Duplicate for Option<T> {
    fn duplicate(&self) -> (r: Option<T>) {
        match self {
            Some(v) => Some(v.duplicate()),
            None => None,
        }
    }
}

/// Copies a list, item by item.
pub fn duplicate_list<T: Duplicate>(items: &Vec<T>) -> (r: Vec<T>)
    ensures
        r@ == items@,
{
    let mut r: Vec<T> = Vec::new();
    let mut i: usize = 0;
    while i < items.len()
        invariant
            i <= items@.len(),
            r@ == items@.take(i as int),
        decreases items@.len() - i,
    {
        r.push(items[i].duplicate());
        assert(r@ =~= items@.take(i + 1));
        i = i + 1;
    }
    assert(items@.take(items@.len() as int) =~= items@);
    r
}

#[derive(Debug, Clone)]
struct Entry<V> {
    key: String,
    value: V,
}

/// A map from text to `V`. No key occurs twice, and the keys keep the order of their first
/// insertion.
#[derive(Debug)]
pub struct StrMap<V> {
    entries: Vec<Entry<V>>,
}

impl<V> View for StrMap<V> {
    type V = Map<Seq<char>, V>;

    open spec fn view(&self) -> Map<Seq<char>, V> {
        Map::new(
            |k: Seq<char>| self.keys().contains(k),
            |k: Seq<char>| self.values()[self.keys().index_of(k)],
        )
    }
}

impl<V> StrMap<V> {
    /// The keys, in order of insertion.
    pub closed spec fn keys(&self) -> Seq<Seq<char>> {
        Seq::new(self.entries@.len(), |i: int| self.entries@[i].key@)
    }

    /// The values, each at the position of its key.
    pub closed spec fn values(&self) -> Seq<V> {
        Seq::new(self.entries@.len(), |i: int| self.entries@[i].value)
    }

    /// No key occurs twice.
    #[verifier::type_invariant]
    pub closed spec fn wf(&self) -> bool {
        self.keys().no_duplicates()
    }

    /// In a valid map the entry at position `i` is what the view holds under the key at `i`.
    pub proof fn lemma_entry(&self, i: int)
        requires
            self.wf(),
            0 <= i < self.keys().len(),
        ensures
            self@.contains_key(self.keys()[i]),
            self@[self.keys()[i]] == self.values()[i],
            self.keys().index_of(self.keys()[i]) == i,
    {
        let k = self.keys()[i];
        let j = self.keys().index_of(k);
        assert(0 <= j < self.keys().len() && self.keys()[j] == k);
    }

    /// In a valid map no key occurs twice.
    pub proof fn lemma_keys_distinct(&self)
        requires
            self.wf(),
        ensures
            self.keys().no_duplicates(),
    {
    }

    /// The domain of the view is the set of the keys.
    pub proof fn lemma_dom(&self)
        ensures
            self@.dom() =~= self.keys().to_set(),
            forall|k: Seq<char>| self@.contains_key(k) <==> self.keys().contains(k),
    {
    }

    /// An empty map.
    pub fn new() -> (m: Self)
        ensures
            m.keys() == Seq::<Seq<char>>::empty(),
            m.values() == Seq::<V>::empty(),
            m@ == Map::<Seq<char>, V>::empty(),
            m.wf(),
    {
        let m = StrMap { entries: Vec::new() };
        assert(m.keys() =~= Seq::<Seq<char>>::empty());
        assert(m.values() =~= Seq::<V>::empty());
        assert(m@ =~= Map::<Seq<char>, V>::empty());
        m
    }

    fn take_entries(&mut self) -> (entries: Vec<Entry<V>>)
        ensures
            entries == old(self).entries,
            final(self).entries@.len() == 0,
    {
        let mut taken = StrMap { entries: Vec::new() };
        assert(taken.keys() =~= Seq::<Seq<char>>::empty());
        std::mem::swap(self, &mut taken);
        taken.entries
    }

    /// The number of entries.
    pub fn len(&self) -> (n: usize)
        ensures
            n == self.keys().len(),
            n == self.values().len(),
            self.wf(),
    {
        proof {
            use_type_invariant(self);
        }
        self.entries.len()
    }

    /// Whether the map holds nothing.
    pub fn is_empty(&self) -> (r: bool)
        ensures
            r == (self.keys().len() == 0),
            r == (self@ =~= Map::<Seq<char>, V>::empty()),
    {
        proof {
            use_type_invariant(self);
            if self.keys().len() > 0 {
                self.lemma_entry(0);
            }
        }
        self.entries.len() == 0
    }

    /// The position of `key` among the keys.
    pub fn position(&self, key: &str) -> (r: Option<usize>)
        ensures
            self.wf(),
            match r {
                Some(i) => i < self.keys().len() && self.keys()[i as int] == key@
                    && self.keys().index_of(key@) == i && self@.contains_key(key@),
                None => !self.keys().contains(key@) && !self@.contains_key(key@),
            },
    {
        proof {
            use_type_invariant(self);
        }
        let mut i: usize = 0;
        while i < self.entries.len()
            invariant
                i <= self.entries@.len(),
                self.wf(),
                forall|j: int| 0 <= j < i ==> self.keys()[j] != key@,
            decreases self.entries@.len() - i,
        {
            if str_eq(self.entries[i].key.as_str(), key) {
                proof {
                    self.lemma_entry(i as int);
                }
                return Some(i);
            }
            i = i + 1;
        }
        None
    }

    /// The keys, in order, as a list of their own.
    pub fn key_list(&self) -> (list: Vec<String>)
        ensures
            list@.len() == self.keys().len(),
            forall|i: int| 0 <= i < list@.len() ==> (#[trigger] list@[i])@ == self.keys()[i],
            self.wf(),
    {
        proof {
            use_type_invariant(self);
        }
        let mut list: Vec<String> = Vec::new();
        let mut i: usize = 0;
        while i < self.entries.len()
            invariant
                i <= self.entries@.len(),
                list@.len() == i,
                forall|j: int| 0 <= j < i ==> (#[trigger] list@[j])@ == self.keys()[j],
            decreases self.entries@.len() - i,
        {
            list.push(self.entries[i].key.clone());
            i = i + 1;
        }
        list
    }

    /// Whether `key` is in the map.
    pub fn contains_key(&self, key: &str) -> (r: bool)
        ensures
            r == self@.contains_key(key@),
            r == self.keys().contains(key@),
    {
        self.position(key).is_some()
    }

    /// The value under `key`.
    pub fn get(&self, key: &str) -> (r: Option<&V>)
        ensures
            match r {
                Some(v) => self@.contains_key(key@) && *v == self@[key@],
                None => !self@.contains_key(key@),
            },
    {
        match self.position(key) {
            Some(i) => {
                proof {
                    self.lemma_entry(i as int);
                }
                Some(&self.entries[i].value)
            },
            None => None,
        }
    }

    /// The key at position `i`.
    pub fn key_at(&self, i: usize) -> (k: &String)
        requires
            i < self.keys().len(),
        ensures
            k@ == self.keys()[i as int],
            self@.contains_key(k@),
            self.wf(),
    {
        proof {
            use_type_invariant(self);
            self.lemma_entry(i as int);
        }
        &self.entries[i].key
    }

    /// The value at position `i`.
    pub fn value_at(&self, i: usize) -> (v: &V)
        requires
            i < self.keys().len(),
        ensures
            *v == self.values()[i as int],
            *v == self@[self.keys()[i as int]],
            self.wf(),
    {
        proof {
            use_type_invariant(self);
            self.lemma_entry(i as int);
        }
        &self.entries[i].value
    }

    /// Puts `value` under `key`. A key that is already there keeps its place and has its value
    /// replaced, and the old value is returned; a new key goes to the end.
    pub fn insert(&mut self, key: String, value: V) -> (previous: Option<V>)
        ensures
            final(self).wf(),
            final(self)@ == old(self)@.insert(key@, value),
            previous == (if old(self)@.contains_key(key@) {
                Some(old(self)@[key@])
            } else {
                None
            }),
            old(self).keys().contains(key@) ==> final(self).keys() == old(self).keys()
                && final(self).values() == old(self).values().update(
                old(self).keys().index_of(key@),
                value,
            ),
            !old(self).keys().contains(key@) ==> final(self).keys() == old(self).keys().push(key@)
                && final(self).values() == old(self).values().push(value),
    {
        let found = self.position(key.as_str());
        match found {
            Some(i) => {
                let ghost before = *self;
                proof {
                    before.lemma_entry(i as int);
                }
                let mut entries = self.take_entries();
                let mut entry = Entry { key, value };
                let slot = &mut entries[i];
                std::mem::swap(slot, &mut entry);
                let ghost after = StrMap { entries };
                proof {
                    assert(after.keys() =~= before.keys());
                    assert(after.values() =~= before.values().update(i as int, value));
                    assert(after@ =~= before@.insert(key@, value)) by {
                        assert forall|k: Seq<char>| #[trigger]
                            after@.contains_key(k) implies after@[k] == before@.insert(
                            key@,
                            value,
                        )[k] by {
                            let j = after.keys().index_of(k);
                            assert(after.keys()[j] == k);
                            before.lemma_entry(j);
                        }
                    }
                }
                *self = StrMap { entries };
                Some(entry.value)
            },
            None => {
                let ghost before = *self;
                let mut entries = self.take_entries();
                entries.push(Entry { key, value });
                let ghost after = StrMap { entries };
                proof {
                    assert(after.keys() =~= before.keys().push(key@));
                    assert(after.values() =~= before.values().push(value));
                    assert(after.keys().no_duplicates());
                    assert(after@ =~= before@.insert(key@, value)) by {
                        assert forall|k: Seq<char>| #[trigger]
                            after@.contains_key(k) <==> before@.insert(key@, value).contains_key(
                                k,
                            ) by {
                            if before.keys().contains(k) {
                                let j = before.keys().index_of(k);
                                assert(after.keys()[j] == k);
                            }
                            if k == key@ {
                                assert(after.keys()[before.keys().len() as int] == k);
                            }
                        }
                        assert forall|k: Seq<char>| #[trigger]
                            after@.contains_key(k) implies after@[k] == before@.insert(
                            key@,
                            value,
                        )[k] by {
                            let j = after.keys().index_of(k);
                            assert(after.keys()[j] == k);
                            if j < before.keys().len() {
                                before.lemma_entry(j);
                            }
                        }
                    }
                }
                *self = StrMap { entries };
                None
            },
        }
    }

    /// Takes `key` and its value out of the map. The other keys keep their order.
    pub fn remove(&mut self, key: &str) -> (removed: Option<V>)
        ensures
            final(self).wf(),
            final(self)@ == old(self)@.remove(key@),
            removed == (if old(self)@.contains_key(key@) {
                Some(old(self)@[key@])
            } else {
                None
            }),
            old(self).keys().contains(key@) ==> final(self).keys() == old(self).keys().remove(
                old(self).keys().index_of(key@),
            ) && final(self).values() == old(self).values().remove(
                old(self).keys().index_of(key@),
            ),
            !old(self).keys().contains(key@) ==> final(self).keys() == old(self).keys()
                && final(self).values() == old(self).values(),
    {
        let found = self.position(key);
        match found {
            Some(i) => {
                let ghost before = *self;
                proof {
                    before.lemma_entry(i as int);
                }
                let mut entries = self.take_entries();
                let entry = entries.remove(i);
                let ghost after = StrMap { entries };
                proof {
                    assert(after.keys() =~= before.keys().remove(i as int));
                    assert(after.values() =~= before.values().remove(i as int));
                    assert(after.keys().no_duplicates()) by {
                        assert forall|a: int, b: int|
                            0 <= a < after.keys().len() && 0 <= b < after.keys().len() && a
                                != b implies after.keys()[a] != after.keys()[b] by {
                            let a0 = if a < i { a } else { a + 1 };
                            let b0 = if b < i { b } else { b + 1 };
                            assert(after.keys()[a] == before.keys()[a0]);
                            assert(after.keys()[b] == before.keys()[b0]);
                        }
                    }
                    assert(after@ =~= before@.remove(key@)) by {
                        assert forall|k: Seq<char>| #[trigger]
                            after@.contains_key(k) <==> before@.remove(key@).contains_key(k) by {
                            if after.keys().contains(k) {
                                let j = after.keys().index_of(k);
                                assert(after.keys()[j] == k);
                                let j0 = if j < i { j } else { j + 1 };
                                assert(before.keys()[j0] == k);
                            }
                            if before.keys().contains(k) && k != key@ {
                                let j0 = before.keys().index_of(k);
                                assert(before.keys()[j0] == k);
                                let j = if j0 < i { j0 } else { j0 - 1 };
                                assert(after.keys()[j] == k);
                            }
                        }
                        assert forall|k: Seq<char>| #[trigger]
                            after@.contains_key(k) implies after@[k] == before@.remove(key@)[k] by {
                            let j = after.keys().index_of(k);
                            assert(after.keys()[j] == k);
                            let j0 = if j < i { j } else { j + 1 };
                            assert(before.keys()[j0] == k);
                            before.lemma_entry(j0);
                        }
                    }
                }
                *self = StrMap { entries };
                Some(entry.value)
            },
            None => {
                proof {
                    assert(self@ =~= self@.remove(key@));
                }
                None
            },
        }
    }
}

impl<V: Duplicate> StrMap<V> {
    /// A copy of the map: the same keys in the same order, each with an equal value.
    pub fn duplicate(&self) -> (m: Self)
        ensures
            m.keys() == self.keys(),
            m.values() == self.values(),
            m@ == self@,
            m.wf(),
    {
        proof {
            use_type_invariant(self);
        }
        let mut entries: Vec<Entry<V>> = Vec::new();
        let mut i: usize = 0;
        while i < self.entries.len()
            invariant
                i <= self.entries@.len(),
                entries@ == self.entries@.take(i as int),
            decreases self.entries@.len() - i,
        {
            let e = &self.entries[i];
            entries.push(Entry { key: e.key.clone(), value: e.value.duplicate() });
            assert(entries@ =~= self.entries@.take(i + 1));
            i = i + 1;
        }
        assert(self.entries@.take(self.entries@.len() as int) =~= self.entries@);
        let ghost copy = StrMap { entries };
        proof {
            assert(copy.keys() =~= self.keys());
            assert(copy.values() =~= self.values());
        }
        StrMap { entries }
    }
}

impl<V: Clone> Clone for StrMap<V> {
    /// A map with the same keys in the same order; each value is the clone that `V` makes.
    fn clone(&self) -> (m: Self)
        ensures
            m.keys() == self.keys(),
    {
        proof {
            use_type_invariant(self);
        }
        let mut entries: Vec<Entry<V>> = Vec::new();
        let mut i: usize = 0;
        while i < self.entries.len()
            invariant
                i <= self.entries@.len(),
                entries@.len() == i,
                forall|j: int| 0 <= j < i ==> entries@[j].key@ == self.entries@[j].key@,
            decreases self.entries@.len() - i,
        {
            let e = &self.entries[i];
            entries.push(Entry { key: e.key.clone(), value: e.value.clone() });
            i = i + 1;
        }
        let ghost copy = StrMap { entries };
        proof {
            assert(copy.keys() =~= self.keys());
        }
        StrMap { entries }
    }
}

} // verus!

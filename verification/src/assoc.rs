//! Small keyed collections on top of `Vec`.
//!
//! Keys are compared by an identity that the key type chooses (for a string,
//! its characters). A list never holds two entries with one identity, so it
//! reads as a mathematical map, and a key set as a mathematical set.

use crate::strng::{same_text, share, strng_chars, Strng};
use vstd::prelude::*;

verus! {

/// A type usable as a key: it has an identity, can be compared by it, and can
/// be copied without changing it.
pub trait Key: Sized {
    type Id;

    /// What two keys must agree on to count as the same key.
    spec fn id(&self) -> Self::Id;

    /// Whether `self` and `other` are the same key.
    fn same(&self, other: &Self) -> (r: bool)
        ensures
            r == (self.id() == other.id()),
    ;

    /// A copy of the key.
    fn duplicate(&self) -> (r: Self)
        ensures
            r.id() == self.id(),
    ;
}

impl Key for Strng {
    type Id = Seq<char>;

    open spec fn id(&self) -> Seq<char> {
        strng_chars(*self)
    }

    fn same(&self, other: &Self) -> (r: bool) {
        same_text(self, other)
    }

    fn duplicate(&self) -> (r: Self) {
        share(self)
    }
}

impl Key for String {
    type Id = Seq<char>;

    open spec fn id(&self) -> Seq<char> {
        self@
    }

    fn same(&self, other: &Self) -> (r: bool) {
        *self == *other
    }

    fn duplicate(&self) -> (r: Self) {
        self.clone()
    }
}

/// The identities of the keys of `entries`, in order.
pub open spec fn ids_of<K: Key, V>(entries: Seq<(K, V)>) -> Seq<K::Id> {
    Seq::new(entries.len(), |i: int| entries[i].0.id())
}

/// A map kept as a list of entries with pairwise different keys.
#[derive(Debug)]
pub struct AssocList<K, V> {
    entries: Vec<(K, V)>,
}

impl<K: Key, V> AssocList<K, V> {
    /// The entries in the order in which their keys first came in.
    pub closed spec fn entries(&self) -> Seq<(K, V)> {
        self.entries@
    }

    /// The identities of the keys, in order.
    pub open spec fn ids(&self) -> Seq<K::Id> {
        ids_of(self.entries())
    }

    /// No identity occurs twice.
    pub open spec fn wf(&self) -> bool {
        self.ids().no_duplicates()
    }

    /// The map that the list stands for.
    pub open spec fn view(&self) -> Map<K::Id, V> {
        Map::new(
            |id: K::Id| self.ids().contains(id),
            |id: K::Id| self.entries()[self.ids().index_of(id)].1,
        )
    }

    /// The identities held, as a set.
    pub open spec fn dom(&self) -> Set<K::Id> {
        self@.dom()
    }

    /// In a well-formed list the entry at `i` is what the map holds for its key.
    pub proof fn lemma_entry(&self, i: int)
        requires
            self.wf(),
            0 <= i < self.entries().len(),
        ensures
            self@.dom().contains(self.ids()[i]),
            self@[self.ids()[i]] == self.entries()[i].1,
            self.ids().index_of(self.ids()[i]) == i,
    {
        let ids = self.ids();
        assert(ids[i] == ids[i]);
        assert(ids.contains(ids[i]));
        let j = ids.index_of(ids[i]);
        assert(0 <= j < ids.len() && ids[j] == ids[i]);
    }

    /// An empty list.
    pub fn new() -> (r: Self)
        ensures
            r.wf(),
            r@ == Map::<K::Id, V>::empty(),
            r.entries().len() == 0,
    {
        let r = AssocList { entries: Vec::new() };
        proof {
            assert(r.ids() =~= Seq::<K::Id>::empty());
            assert(r@ =~= Map::<K::Id, V>::empty());
        }
        r
    }

    /// The number of entries.
    pub fn len(&self) -> (r: usize)
        ensures
            r == self.entries().len(),
    {
        self.entries.len()
    }

    /// The key of the entry at `i`.
    pub fn key_at(&self, i: usize) -> (r: &K)
        requires
            i < self.entries().len(),
        ensures
            *r == self.entries()[i as int].0,
            r.id() == self.ids()[i as int],
    {
        &self.entries[i].0
    }

    /// The value of the entry at `i`.
    pub fn value_at(&self, i: usize) -> (r: &V)
        requires
            i < self.entries().len(),
        ensures
            *r == self.entries()[i as int].1,
    {
        &self.entries[i].1
    }

    /// Where the entry for `key` stands, if there is one.
    pub fn position(&self, key: &K) -> (r: Option<usize>)
        ensures
            match r {
                Some(i) => i < self.entries().len() && self.ids()[i as int] == key.id(),
                None => !self.ids().contains(key.id()),
            },
    {
        let mut i: usize = 0;
        while i < self.entries.len()
            invariant
                i <= self.entries.len(),
                forall|j: int| 0 <= j < i ==> self.ids()[j] != key.id(),
            decreases self.entries.len() - i,
        {
            if self.entries[i].0.same(key) {
                return Some(i);
            }
            i += 1;
        }
        None
    }

    /// Whether the list has an entry for `key`.
    pub fn contains_key(&self, key: &K) -> (r: bool)
        ensures
            r == self@.dom().contains(key.id()),
    {
        self.position(key).is_some()
    }

    /// The value held for `key`.
    pub fn get(&self, key: &K) -> (r: Option<&V>)
        requires
            self.wf(),
        ensures
            match r {
                Some(v) => self@.dom().contains(key.id()) && *v == self@[key.id()],
                None => !self@.dom().contains(key.id()),
            },
    {
        match self.position(key) {
            Some(i) => {
                proof {
                    self.lemma_entry(i as int);
                }
                Some(&self.entries[i].1)
            },
            None => None,
        }
    }

    /// Sets the value for `key`, and returns the value that it had.
    pub fn insert(&mut self, key: K, value: V) -> (r: Option<V>)
        requires
            old(self).wf(),
        ensures
            final(self).wf(),
            final(self)@ == old(self)@.insert(key.id(), value),
            final(self).dom() == old(self).dom().insert(key.id()),
            match r {
                Some(v) => old(self)@.dom().contains(key.id()) && v == old(self)@[key.id()]
                    && final(self).ids() == old(self).ids(),
                None => !old(self)@.dom().contains(key.id())
                    && final(self).ids() == old(self).ids().push(key.id()),
            },
    {
        let ghost before = *self;
        match self.position(&key) {
            Some(i) => {
                proof {
                    before.lemma_entry(i as int);
                }
                let mut entry = (key, value);
                let slot = &mut self.entries[i];
                std::mem::swap(slot, &mut entry);
                proof {
                    assert(self.ids() =~= before.ids());
                    assert forall|id: K::Id| self.ids().contains(id) implies #[trigger] self@[id]
                        == before@.insert(key.id(), value)[id] by {
                        let j = self.ids().index_of(id);
                        assert(self.ids()[j] == id);
                        if id == key.id() {
                            assert(j == i);
                        }
                    }
                    assert(self@ =~= before@.insert(key.id(), value));
                }
                Some(entry.1)
            },
            None => {
                self.entries.push((key, value));
                proof {
                    let n = before.entries().len() as int;
                    assert(self.ids() =~= before.ids().push(key.id()));
                    assert forall|id: K::Id| #[trigger] self.ids().contains(id) <==> (id == key.id()
                        || before.ids().contains(id)) by {
                        if id == key.id() {
                            assert(self.ids()[n] == id);
                        }
                        if before.ids().contains(id) {
                            let j = before.ids().index_of(id);
                            assert(self.ids()[j] == id);
                        }
                    }
                    assert forall|id: K::Id| self.ids().contains(id) implies #[trigger] self@[id]
                        == before@.insert(key.id(), value)[id] by {
                        let j = self.ids().index_of(id);
                        assert(self.ids()[j] == id);
                        if id != key.id() {
                            let k = before.ids().index_of(id);
                            assert(before.ids()[k] == id);
                            assert(self.ids()[k] == id);
                            assert(j == k);
                        } else {
                            assert(j == n);
                        }
                    }
                    assert(self@ =~= before@.insert(key.id(), value));
                }
                None
            },
        }
    }

    /// Takes the entry for `key` out, and returns the value that it had.
    pub fn remove(&mut self, key: &K) -> (r: Option<V>)
        requires
            old(self).wf(),
        ensures
            final(self).wf(),
            final(self)@ == old(self)@.remove(key.id()),
            final(self).dom() == old(self).dom().remove(key.id()),
            match r {
                Some(v) => old(self)@.dom().contains(key.id()) && v == old(self)@[key.id()],
                None => !old(self)@.dom().contains(key.id()) && *final(self) == *old(self),
            },
    {
        let ghost before = *self;
        match self.position(key) {
            Some(i) => {
                proof {
                    before.lemma_entry(i as int);
                }
                let entry = self.entries.remove(i);
                proof {
                    assert(self.ids() =~= before.ids().remove(i as int));
                    assert forall|id: K::Id| #[trigger] self.ids().contains(id) <==> (id != key.id()
                        && before.ids().contains(id)) by {
                        if self.ids().contains(id) {
                            let j = self.ids().index_of(id);
                            assert(self.ids()[j] == id);
                            if j < i {
                                assert(before.ids()[j] == id);
                            } else {
                                assert(before.ids()[j + 1] == id);
                            }
                        }
                        if id != key.id() && before.ids().contains(id) {
                            let k = before.ids().index_of(id);
                            assert(before.ids()[k] == id);
                            if k < i {
                                assert(self.ids()[k] == id);
                            } else {
                                assert(self.ids()[k - 1] == id);
                            }
                        }
                    }
                    assert forall|id: K::Id| self.ids().contains(id) implies #[trigger] self@[id]
                        == before@[id] by {
                        let j = self.ids().index_of(id);
                        assert(self.ids()[j] == id);
                        let k = before.ids().index_of(id);
                        assert(before.ids()[k] == id);
                        if j < i {
                            assert(before.ids()[j] == id);
                        } else {
                            assert(before.ids()[j + 1] == id);
                        }
                    }
                    assert(self@ =~= before@.remove(key.id()));
                }
                Some(entry.1)
            },
            None => {
                proof {
                    assert(self@ =~= before@.remove(key.id()));
                }
                None
            },
        }
    }
}

/// A map from strings to strings, read by the characters of both.
pub open spec fn text_map(m: Map<Seq<char>, String>) -> Map<Seq<char>, Seq<char>> {
    m.map_values(|s: String| s@)
}

impl AssocList<String, String> {
    /// A copy of the list: the same keys in the same order, each with the
    /// same text.
    pub fn copy(&self) -> (r: Self)
        requires
            self.wf(),
        ensures
            r.wf(),
            r.ids() == self.ids(),
            text_map(r@) == text_map(self@),
    {
        let mut out: Vec<(String, String)> = Vec::new();
        let mut i: usize = 0;
        while i < self.entries.len()
            invariant
                i <= self.entries.len(),
                out.len() == i,
                forall|j: int|
                    0 <= j < i ==> (#[trigger] out[j]).0@ == self.entries[j].0@ && out[j].1@
                        == self.entries[j].1@,
            decreases self.entries.len() - i,
        {
            out.push((self.entries[i].0.clone(), self.entries[i].1.clone()));
            i += 1;
        }
        let r = AssocList { entries: out };
        proof {
            assert(r.ids() =~= self.ids());
            assert forall|id: Seq<char>| r.ids().contains(id) implies (#[trigger] r@[id])@ == self@[id]@ by {
                let j = r.ids().index_of(id);
                assert(r.ids()[j] == id);
                assert(r.entries()[j] == out[j]);
            }
            assert(text_map(r@) =~= text_map(self@));
        }
        r
    }
}

/// A set of keys, kept as a list without repetition.
#[derive(Debug)]
pub struct KeySet<K> {
    items: AssocList<K, ()>,
}

impl<K: Key> KeySet<K> {
    /// The identities held, in the order in which they first came in.
    pub closed spec fn ids(&self) -> Seq<K::Id> {
        self.items.ids()
    }

    /// No identity occurs twice.
    pub open spec fn wf(&self) -> bool {
        self.ids().no_duplicates()
    }

    /// The set that the list stands for.
    pub open spec fn view(&self) -> Set<K::Id> {
        self.ids().to_set()
    }

    /// An empty set.
    pub fn new() -> (r: Self)
        ensures
            r.wf(),
            r@ == Set::<K::Id>::empty(),
            r.ids().len() == 0,
    {
        let r = KeySet { items: AssocList::new() };
        proof {
            assert(r@ =~= Set::<K::Id>::empty());
        }
        r
    }

    /// The number of keys.
    pub fn len(&self) -> (r: usize)
        ensures
            r == self.ids().len(),
    {
        self.items.len()
    }

    /// Whether the set is empty.
    pub fn is_empty(&self) -> (r: bool)
        ensures
            r == (self@ == Set::<K::Id>::empty()),
            r == (self.ids().len() == 0),
    {
        let r = self.items.len() == 0;
        proof {
            if r {
                assert(self@ =~= Set::<K::Id>::empty());
            } else {
                assert(self@.contains(self.ids()[0]));
            }
        }
        r
    }

    /// The key at `i`.
    pub fn key_at(&self, i: usize) -> (r: &K)
        requires
            i < self.ids().len(),
        ensures
            r.id() == self.ids()[i as int],
    {
        self.items.key_at(i)
    }

    /// Whether `key` is in the set.
    pub fn contains(&self, key: &K) -> (r: bool)
        ensures
            r == self@.contains(key.id()),
    {
        self.items.position(key).is_some()
    }

    /// Puts `key` into the set; the result says whether it was new.
    pub fn insert(&mut self, key: K) -> (r: bool)
        requires
            old(self).wf(),
        ensures
            final(self).wf(),
            final(self)@ == old(self)@.insert(key.id()),
            r == !old(self)@.contains(key.id()),
            final(self).ids() == if r {
                old(self).ids().push(key.id())
            } else {
                old(self).ids()
            },
    {
        let ghost before = self.ids();
        let prior = self.items.insert(key, ());
        proof {
            if prior.is_some() {
                assert(before.contains(key.id()));
                assert(self@ =~= before.to_set().insert(key.id()));
            } else {
                assert forall|id: K::Id| #[trigger] self.ids().contains(id) <==> (id == key.id()
                    || before.contains(id)) by {
                    if self.ids().contains(id) {
                        let j = self.ids().index_of(id);
                        assert(self.ids()[j] == id);
                        if j < before.len() {
                            assert(before[j] == id);
                        }
                    }
                    if before.contains(id) {
                        let j = before.index_of(id);
                        assert(self.ids()[j] == id);
                    }
                    if id == key.id() {
                        assert(self.ids()[before.len() as int] == id);
                    }
                }
                assert(self@ =~= before.to_set().insert(key.id()));
            }
        }
        prior.is_none()
    }

    /// Takes `key` out of the set; the result says whether it was there.
    pub fn remove(&mut self, key: &K) -> (r: bool)
        requires
            old(self).wf(),
        ensures
            final(self).wf(),
            final(self)@ == old(self)@.remove(key.id()),
            r == old(self)@.contains(key.id()),
    {
        let ghost before = self.items;
        let prior = self.items.remove(key);
        proof {
            assert forall|id: K::Id| #[trigger] self.ids().contains(id) <==> (id != key.id()
                && before.ids().contains(id)) by {
                assert(self.items@.dom().contains(id) <==> self.ids().contains(id));
                assert(before@.dom().contains(id) <==> before.ids().contains(id));
            }
            assert(self@ =~= before.ids().to_set().remove(key.id()));
        }
        prior.is_some()
    }
}

} // verus!

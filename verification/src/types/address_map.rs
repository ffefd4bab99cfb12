//! A map keyed by address.
//!
//! Entries live in a vector in the order in which their keys first arrived.
//! The map's meaning is its view, a mathematical map; the slot order is
//! exposed only so that callers can walk the entries.

use vstd::prelude::*;

use super::address::Address;
use super::assoc::{
    entries_map, lemma_entries_dom, lemma_entries_lookup, lemma_entries_push, lemma_entries_remove,
    lemma_entries_update, slot_keys,
};

verus! {

/// A map from addresses to values of type `V`.
pub struct AddressMap<V> {
    entries: Vec<(Address, V)>,
}

impl<V> View for AddressMap<V> {
    type V = Map<Address, V>;

    closed spec fn view(&self) -> Map<Address, V> {
        entries_map(self.entries@)
    }
}

impl<V> AddressMap<V> {
    /// The keys in slot order: the order in which the entries are walked.
    pub closed spec fn order(&self) -> Seq<Address> {
        slot_keys(self.entries@)
    }

    #[verifier::type_invariant]
    spec fn distinct_keys(self) -> bool {
        slot_keys(self.entries@).no_duplicates()
    }

    /// An empty map.
    pub fn new() -> (r: Self)
        ensures
            r@ == Map::<Address, V>::empty(),
            r.order() == Seq::<Address>::empty(),
    {
        let r = AddressMap { entries: Vec::new() };
        assert(r.order() =~= Seq::<Address>::empty());
        assert(r@ =~= Map::<Address, V>::empty());
        r
    }

    fn find(&self, key: &Address) -> (r: Option<usize>)
        ensures
            match r {
                Some(i) => i < self.entries@.len() && self.entries@[i as int].0 == *key,
                None => !slot_keys(self.entries@).contains(*key),
            },
    {
        let mut i: usize = 0;
        while i < self.entries.len()
            invariant
                0 <= i <= self.entries@.len(),
                forall|j: int| 0 <= j < i ==> self.entries@[j].0 != *key,
            decreases self.entries@.len() - i,
        {
            if self.entries[i].0 == *key {
                return Some(i);
            }
            i += 1;
        }
        None
    }

    /// The number of entries. The slot order lists every key once.
    pub fn len(&self) -> (r: usize)
        ensures
            r == self.order().len(),
            r == self@.dom().len(),
            self@.dom().finite(),
            self.order().no_duplicates(),
            self.order().to_set() == self@.dom(),
    {
        proof {
            use_type_invariant(self);
            lemma_entries_dom(self.entries@);
        }
        self.entries.len()
    }

    /// Whether the map has no entries.
    pub fn is_empty(&self) -> (r: bool)
        ensures
            r == (self@.dom().len() == 0),
            r == (self@ == Map::<Address, V>::empty()),
    {
        proof {
            use_type_invariant(self);
            lemma_entries_dom(self.entries@);
            if self.entries@.len() == 0 {
                assert(self@ =~= Map::<Address, V>::empty());
            }
        }
        self.entries.len() == 0
    }

    /// Whether `key` has an entry.
    pub fn contains_key(&self, key: &Address) -> (r: bool)
        ensures
            r == self@.dom().contains(*key),
    {
        proof {
            use_type_invariant(self);
        }
        match self.find(key) {
            Some(i) => {
                proof {
                    lemma_entries_lookup(self.entries@, i as int);
                }
                true
            },
            None => false,
        }
    }

    /// The value under `key`, if there is one.
    pub fn get(&self, key: &Address) -> (r: Option<&V>)
        ensures
            r == if self@.dom().contains(*key) {
                Some(&self@[*key])
            } else {
                None
            },
    {
        proof {
            use_type_invariant(self);
        }
        match self.find(key) {
            Some(i) => {
                proof {
                    lemma_entries_lookup(self.entries@, i as int);
                }
                Some(&self.entries[i].1)
            },
            None => None,
        }
    }

    /// Puts `value` under `key`, replacing what was there. A new key goes to
    /// the end of the slot order; a known key keeps its slot.
    pub fn insert(&mut self, key: Address, value: V)
        ensures
            final(self)@ == old(self)@.insert(key, value),
            final(self).order() == if old(self)@.dom().contains(key) {
                old(self).order()
            } else {
                old(self).order().push(key)
            },
    {
        proof {
            use_type_invariant(&*self);
        }
        let found = self.find(&key);
        let mut entries: Vec<(Address, V)> = Vec::new();
        std::mem::swap(&mut self.entries, &mut entries);
        let ghost before = entries@;
        match found {
            Some(i) => {
                proof {
                    lemma_entries_lookup(before, i as int);
                    lemma_entries_update(before, i as int, value);
                }
                entries[i] = (key, value);
            },
            None => {
                proof {
                    lemma_entries_push(before, key, value);
                }
                entries.push((key, value));
            },
        }
        self.entries = entries;
    }

    /// Takes the entry under `key` out and returns its value, if there was
    /// one. The other entries keep their relative order.
    pub fn remove(&mut self, key: &Address) -> (r: Option<V>)
        ensures
            final(self)@ == old(self)@.remove(*key),
            r == if old(self)@.dom().contains(*key) {
                Some(old(self)@[*key])
            } else {
                None
            },
            !old(self)@.dom().contains(*key) ==> final(self).order() == old(self).order(),
    {
        proof {
            use_type_invariant(&*self);
        }
        let found = self.find(key);
        match found {
            Some(i) => {
                let mut entries: Vec<(Address, V)> = Vec::new();
                std::mem::swap(&mut self.entries, &mut entries);
                proof {
                    lemma_entries_lookup(entries@, i as int);
                    lemma_entries_remove(entries@, i as int);
                }
                let removed = entries.remove(i);
                self.entries = entries;
                Some(removed.1)
            },
            None => {
                assert(self@.remove(*key) =~= self@);
                None
            },
        }
    }

    /// The key in slot `index`.
    pub fn key_at(&self, index: usize) -> (r: Address)
        requires
            index < self.order().len(),
        ensures
            r == self.order()[index as int],
            self@.dom().contains(r),
    {
        proof {
            use_type_invariant(self);
            lemma_entries_lookup(self.entries@, index as int);
        }
        self.entries[index].0
    }

    /// The value in slot `index`.
    pub fn value_at(&self, index: usize) -> (r: &V)
        requires
            index < self.order().len(),
        ensures
            self@.dom().contains(self.order()[index as int]),
            *r == self@[self.order()[index as int]],
    {
        proof {
            use_type_invariant(self);
            lemma_entries_lookup(self.entries@, index as int);
        }
        &self.entries[index].1
    }

    /// The keys, in slot order.
    pub fn keys(&self) -> (r: Vec<Address>)
        ensures
            r@ == self.order(),
            r@.no_duplicates(),
            r@.to_set() == self@.dom(),
    {
        proof {
            use_type_invariant(self);
            lemma_entries_dom(self.entries@);
        }
        let mut out: Vec<Address> = Vec::new();
        let mut i: usize = 0;
        while i < self.entries.len()
            invariant
                0 <= i <= self.entries@.len(),
                out@ == slot_keys(self.entries@).subrange(0, i as int),
            decreases self.entries@.len() - i,
        {
            out.push(self.entries[i].0);
            assert(out@ =~= slot_keys(self.entries@).subrange(0, i as int + 1));
            i += 1;
        }
        assert(out@ =~= slot_keys(self.entries@));
        out
    }
}

impl<V: Copy> AddressMap<V> {
    /// A copy of the map, entry for entry.
    pub fn snapshot(&self) -> (r: Self)
        ensures
            r@ == self@,
            r.order() == self.order(),
    {
        proof {
            use_type_invariant(self);
        }
        let mut entries: Vec<(Address, V)> = Vec::new();
        let mut i: usize = 0;
        while i < self.entries.len()
            invariant
                0 <= i <= self.entries@.len(),
                entries@ == self.entries@.subrange(0, i as int),
            decreases self.entries@.len() - i,
        {
            entries.push(self.entries[i]);
            assert(entries@ =~= self.entries@.subrange(0, i as int + 1));
            i += 1;
        }
        assert(entries@ =~= self.entries@);
        AddressMap { entries }
    }
}

} // verus!

verus! {

/// A set of addresses.
pub struct AddressSet {
    members: AddressMap<()>,
}

impl View for AddressSet {
    type V = Set<Address>;

    closed spec fn view(&self) -> Set<Address> {
        self.members@.dom()
    }
}

impl AddressSet {
    /// An empty set.
    pub fn new() -> (r: Self)
        ensures
            r@ == Set::<Address>::empty(),
    {
        let r = AddressSet { members: AddressMap::new() };
        assert(r@ =~= Set::<Address>::empty());
        r
    }

    /// The set of the addresses in a list.
    pub fn from_list(list: &[Address]) -> (r: Self)
        ensures
            r@ == list@.to_set(),
    {
        let mut out = AddressSet::new();
        let mut i: usize = 0;
        assert(list@.subrange(0, 0).to_set() =~= Set::<Address>::empty());
        while i < list.len()
            invariant
                0 <= i <= list@.len(),
                out@ == list@.subrange(0, i as int).to_set(),
            decreases list@.len() - i,
        {
            out.insert(list[i]);
            proof {
                let before = list@.subrange(0, i as int);
                let after = list@.subrange(0, i as int + 1);
                assert(after =~= before.push(list@[i as int]));
                assert forall|a: Address| after.to_set().contains(a) == before.to_set().insert(
                    list@[i as int],
                ).contains(a) by {
                    if after.contains(a) {
                        let k = choose|k: int| 0 <= k < after.len() && after[k] == a;
                        if k < before.len() {
                            assert(before[k] == a);
                        }
                    }
                    if before.contains(a) {
                        let k = choose|k: int| 0 <= k < before.len() && before[k] == a;
                        assert(after[k] == a);
                    }
                    if a == list@[i as int] {
                        assert(after[i as int] == a);
                    }
                }
                assert(after.to_set() =~= before.to_set().insert(list@[i as int]));
            }
            i += 1;
        }
        assert(list@.subrange(0, list@.len() as int) =~= list@);
        out
    }

    /// Whether `address` is a member.
    pub fn contains(&self, address: &Address) -> (r: bool)
        ensures
            r == self@.contains(*address),
    {
        self.members.contains_key(address)
    }

    /// Adds `address` to the set.
    pub fn insert(&mut self, address: Address)
        ensures
            final(self)@ == old(self)@.insert(address),
    {
        self.members.insert(address, ());
        assert(self.members@.dom() =~= old(self).members@.dom().insert(address));
    }

    /// The number of members.
    pub fn len(&self) -> (r: usize)
        ensures
            r == self@.len(),
            self@.finite(),
    {
        self.members.len()
    }
}

} // verus!

//! Maps and sets keyed by participant and endpoint identifiers.
//!
//! The contents are kept in the hash tables of the standard library under the
//! number that stands for the identifier. What callers see is the map or set
//! over the identifiers themselves.

use std::collections::{HashMap, HashSet};
use std::marker::PhantomData;

use vstd::prelude::*;

verus! {

/// An identifier that can be told from all others of its type by one number.
pub trait CacheKey: Copy {
    /// The number that stands for the identifier.
    spec fn code(self) -> u128;

    /// Computes the number that stands for the identifier.
    fn packed(&self) -> (packed: u128)
        ensures
            packed == self.code(),
    ;

    /// Two identifiers with the same number are the same identifier.
    proof fn lemma_code_injective(a: Self, b: Self)
        requires
            a.code() == b.code(),
        ensures
            a == b,
    ;
}

/// A map from identifiers to copyable values.
pub struct Cache<K, V> {
    entries: HashMap<u128, V>,
    keys: PhantomData<K>,
}

impl<K: CacheKey, V: Copy> View for Cache<K, V> {
    type V = Map<K, V>;

    closed spec fn view(&self) -> Map<K, V> {
        Map::new(
            |key: K| self.entries@.contains_key(key.code()),
            |key: K| self.entries@[key.code()],
        )
    }
}

impl<K: CacheKey, V: Copy> Cache<K, V> {
    /// The empty map.
    pub fn new() -> (cache: Self)
        ensures
            cache@ == Map::<K, V>::empty(),
    {
        let cache = Cache { entries: HashMap::new(), keys: PhantomData };
        assert(cache@ =~= Map::<K, V>::empty());
        cache
    }

    /// The value stored under the key, if there is one.
    pub fn get(&self, key: &K) -> (value: Option<V>)
        ensures
            value == (if self@.contains_key(*key) {
                Some(self@[*key])
            } else {
                None
            }),
    {
        match self.entries.get(&key.packed()) {
            Some(value) => Some(*value),
            None => None,
        }
    }

    /// Stores the value under the key, in place of any value stored there before.
    pub fn insert(&mut self, key: K, value: V)
        ensures
            final(self)@ == old(self)@.insert(key, value),
    {
        self.entries.insert(key.packed(), value);
        proof {
            assert forall|other: K| other.code() == key.code() implies other == key by {
                K::lemma_code_injective(other, key);
            }
            assert(self@ =~= old(self)@.insert(key, value));
        }
    }
}

/// A map from ordered pairs of identifiers to copyable values.
pub struct PairCache<K, V> {
    entries: HashMap<u128, HashMap<u128, V>>,
    keys: PhantomData<K>,
}

impl<K: CacheKey, V: Copy> View for PairCache<K, V> {
    type V = Map<(K, K), V>;

    closed spec fn view(&self) -> Map<(K, K), V> {
        Map::new(
            |pair: (K, K)|
                self.entries@.contains_key(pair.0.code())
                    && self.entries@[pair.0.code()]@.contains_key(pair.1.code()),
            |pair: (K, K)| self.entries@[pair.0.code()]@[pair.1.code()],
        )
    }
}

impl<K: CacheKey, V: Copy> PairCache<K, V> {
    /// The empty map.
    pub fn new() -> (cache: Self)
        ensures
            cache@ == Map::<(K, K), V>::empty(),
    {
        let cache = PairCache { entries: HashMap::new(), keys: PhantomData };
        assert(cache@ =~= Map::<(K, K), V>::empty());
        cache
    }

    /// The value stored under the pair, if there is one.
    pub fn get(&self, first: &K, second: &K) -> (value: Option<V>)
        ensures
            value == (if self@.contains_key((*first, *second)) {
                Some(self@[(*first, *second)])
            } else {
                None
            }),
    {
        match self.entries.get(&first.packed()) {
            Some(row) => match row.get(&second.packed()) {
                Some(value) => Some(*value),
                None => None,
            },
            None => None,
        }
    }

    /// Stores the value under the pair, in place of any value stored there before.
    pub fn insert(&mut self, first: K, second: K, value: V)
        ensures
            final(self)@ == old(self)@.insert((first, second), value),
    {
        let first_code: u128 = first.packed();
        let mut row: HashMap<u128, V> = match self.entries.remove(&first_code) {
            Some(row) => row,
            None => HashMap::new(),
        };
        row.insert(second.packed(), value);
        self.entries.insert(first_code, row);
        proof {
            assert forall|other: K| other.code() == first.code() implies other == first by {
                K::lemma_code_injective(other, first);
            }
            assert forall|other: K| other.code() == second.code() implies other == second by {
                K::lemma_code_injective(other, second);
            }
            assert(self@ =~= old(self)@.insert((first, second), value));
        }
    }
}

/// A set of identifiers.
pub struct KeySet<K> {
    entries: HashSet<u128>,
    keys: PhantomData<K>,
}

impl<K: CacheKey> View for KeySet<K> {
    type V = Set<K>;

    closed spec fn view(&self) -> Set<K> {
        Set::new(|key: K| self.entries@.contains(key.code()))
    }
}

impl<K: CacheKey> KeySet<K> {
    /// The empty set.
    pub fn new() -> (set: Self)
        ensures
            set@ == Set::<K>::empty(),
    {
        let set = KeySet { entries: HashSet::new(), keys: PhantomData };
        assert(set@ =~= Set::<K>::empty());
        set
    }

    /// Whether the key is in the set.
    pub fn contains(&self, key: &K) -> (found: bool)
        ensures
            found == self@.contains(*key),
    {
        self.entries.contains(&key.packed())
    }

    /// Adds the key to the set.
    pub fn insert(&mut self, key: K)
        ensures
            final(self)@ == old(self)@.insert(key),
    {
        self.entries.insert(key.packed());
        proof {
            assert forall|other: K| other.code() == key.code() implies other == key by {
                K::lemma_code_injective(other, key);
            }
            assert(self@ =~= old(self)@.insert(key));
        }
    }
}

} // verus!

//! Where the rate limiter keeps what it knows of each key.
//!
//! A key's whole state is one span: its theoretical arrival time, the time
//! at which its bucket would be empty if nothing more arrived. A key that
//! was never admitted has no state.
use crate::nanos::Nanos;
use std::collections::HashMap;
use vstd::prelude::*;

verus! {

broadcast use vstd::std_specs::hash::group_hash_axioms;

/// The state that `cells` holds for `key`, if it holds one.
pub open spec fn stored<K>(cells: Map<K, Nanos>, key: K) -> Option<Nanos> {
    if cells.contains_key(key) {
        Some(cells[key])
    } else {
        None
    }
}

/// A store of theoretical arrival times, one per key.
///
/// Its single operation reads the state of one key, lets the caller decide
/// on it and writes the decision's new state back, as one step. A store is
/// changed through exclusive access, so that no second update of any key can
/// come between the reading and the writing.
pub trait StateStore {
    /// What the states are kept by.
    type Key;

    /// The state of every key that has one.
    spec fn cells(&self) -> Map<Self::Key, Nanos>;

    /// Hands the state of `key` to `f` and does what `f` decides.
    ///
    /// Where `f` returns a result and a new state, the new state becomes the
    /// state of `key` and the result is returned. Where `f` returns an
    /// error, the error is returned and nothing is written. No other key
    /// changes either way.
    fn measure_and_replace<T, F, E>(&mut self, key: &Self::Key, f: F) -> (res: Result<T, E>) where
        F: Fn(Option<Nanos>) -> Result<(T, Nanos), E>,

        requires
            call_requires(f, (stored(old(self).cells(), *key),)),
        ensures
            match res {
                Ok(r) => stored(final(self).cells(), *key) matches Some(next) && call_ensures(
                    f,
                    (stored(old(self).cells(), *key),),
                    Ok((r, next)),
                ) && final(self).cells() == old(self).cells().insert(*key, next),
                Err(e) => call_ensures(f, (stored(old(self).cells(), *key),), Err(e)) && final(self).cells()
                    == old(self).cells(),
            },
    ;
}

/// The key of a store that holds a single state.
#[derive(Clone, Copy, Debug, PartialEq, Eq, Structural, Hash)]
pub enum NotKeyed {
    /// The one key there is.
    NonKey,
}

/// A store for one state, for a rate limiter that does not tell keys apart.
#[derive(Debug)]
pub struct InMemoryState {
    pub(crate) tat: Option<Nanos>,
}

impl InMemoryState {
    /// The store in which nothing was admitted yet.
    pub fn new() -> (s: InMemoryState)
        ensures
            s.cells() == Map::<NotKeyed, Nanos>::empty(),
    {
        InMemoryState { tat: None }
    }

    /// The stored theoretical arrival time, if there is one.
    pub fn get(&self) -> (tat: Option<Nanos>)
        ensures
            tat == stored(self.cells(), NotKeyed::NonKey),
    {
        self.tat
    }
}

impl StateStore for InMemoryState {
    type Key = NotKeyed;

    open(crate) spec fn cells(&self) -> Map<NotKeyed, Nanos> {
        match self.tat {
            Some(tat) => Map::empty().insert(NotKeyed::NonKey, tat),
            None => Map::empty(),
        }
    }

    fn measure_and_replace<T, F, E>(&mut self, key: &NotKeyed, f: F) -> (res: Result<T, E>) where
        F: Fn(Option<Nanos>) -> Result<(T, Nanos), E>,
     {
        match f(self.tat) {
            Ok((r, next)) => {
                self.tat = Some(next);
                assert(self.cells() =~= old(self).cells().insert(*key, next));
                Ok(r)
            },
            Err(e) => Err(e),
        }
    }
}

/// A store that keeps one state for each of many keys, made on a key's
/// first admission and never dropped.
#[derive(Debug)]
pub struct HashMapStateStore {
    pub(crate) map: HashMap<u64, Nanos>,
}

impl HashMapStateStore {
    /// The store in which no key was admitted yet.
    pub fn new() -> (s: HashMapStateStore)
        ensures
            s.cells() == Map::<u64, Nanos>::empty(),
    {
        HashMapStateStore { map: HashMap::new() }
    }

    /// The theoretical arrival time stored for `key`, if there is one.
    pub fn get(&self, key: u64) -> (tat: Option<Nanos>)
        ensures
            tat == stored(self.cells(), key),
    {
        match self.map.get(&key) {
            Some(tat) => Some(*tat),
            None => None,
        }
    }

    /// The number of keys that have a state.
    pub fn len(&self) -> (n: usize)
        ensures
            n == self.cells().len(),
    {
        self.map.len()
    }
}

impl StateStore for HashMapStateStore {
    type Key = u64;

    open(crate) spec fn cells(&self) -> Map<u64, Nanos> {
        self.map@
    }

    fn measure_and_replace<T, F, E>(&mut self, key: &u64, f: F) -> (res: Result<T, E>) where
        F: Fn(Option<Nanos>) -> Result<(T, Nanos), E>,
     {
        let prev = self.get(*key);
        match f(prev) {
            Ok((r, next)) => {
                self.map.insert(*key, next);
                Ok(r)
            },
            Err(e) => Err(e),
        }
    }
}

} // verus!

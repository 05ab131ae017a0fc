//! The container: one hash table behind one verified reader-writer lock.

use std::collections::HashMap;
use std::collections::hash_map::RandomState;
use std::hash::Hash;
use vstd::prelude::*;
use vstd::rwlock::{RwLock, RwLockPredicate};
use vstd::std_specs::hash::{builds_valid_hashers, obeys_key_model};

use crate::entry::{Entry, OccupiedEntry, VacantEntry};

verus! {

/// The hash-table reasoning of vstd applies to a key type exactly when the
/// type obeys the hashing key model and the default hasher builder is valid;
/// vstd provides this for the primitive types and boxes of them.
pub open spec fn key_model_ok<K>() -> bool {
    obeys_key_model::<K>() && builds_valid_hashers::<RandomState>()
}

/// The lock invariant of the container: any store may sit behind the lock.
/// The container itself maintains no restriction on the protected table;
/// what each operation does to it is stated on the entry machinery, which
/// owns the table while the exclusive lock is held.
pub(crate) struct StorePred;

impl<K, V> RwLockPredicate<HashMap<K, V>> for StorePred {
    open spec fn inv(self, store: HashMap<K, V>) -> bool {
        true
    }
}

/// A concurrent hash map: one associative store under one reader-writer
/// lock. Writers (`insert`, `remove`, `entry`) serialize through the
/// exclusive side of the lock; readers (`get`) share the shared side.
///
/// All operations take `&self`: the container is meant to be shared across
/// threads. For that same reason the contracts of `insert`, `get` and
/// `remove` cannot pin the protected table to a value — another thread may
/// write between any two calls. The exact effect of each operation on the
/// store it observed is stated on [`Entry`] and its guards, which hold the
/// table for the whole chain of calls.
pub struct CarbonMap<K, V> {
    inner: RwLock<HashMap<K, V>, StorePred>,
}

impl<K, V> CarbonMap<K, V> where K: Eq + Hash {
    /// A new, empty map.
    pub fn new() -> Self {
        CarbonMap { inner: RwLock::new(HashMap::new(), Ghost(StorePred)) }
    }

    /// Insert or overwrite: acquires the exclusive lock, stores `value`
    /// under `key` (last writer wins), and releases the lock on return.
    pub fn insert(&self, key: K, value: V) {
        let (mut store, handle) = self.inner.acquire_write();
        let _ = store.insert(key, value);
        handle.release_write(store);
    }

    /// Look up `key` under the shared lock and return a clone of its value,
    /// so the lock is released before the caller observes the result.
    pub fn get(&self, key: &K) -> Option<V> where V: Clone {
        let handle = self.inner.acquire_read();
        let result = match handle.borrow().get(key) {
            Some(value) => Some(value.clone()),
            None => None,
        };
        handle.release_read();
        result
    }

    /// Remove `key` under the exclusive lock, returning the removed value
    /// by move if the key was present.
    pub fn remove(&self, key: &K) -> Option<V> {
        let (mut store, handle) = self.inner.acquire_write();
        let result = store.remove(key);
        handle.release_write(store);
        result
    }

    /// Acquire the exclusive lock and classify `key` as occupied or vacant
    /// in the store found behind it. The returned [`Entry`] keeps the lock
    /// until it is consumed by a terminal operation or discarded, so a
    /// whole check-then-act chain is one atomic step of the container.
    pub fn entry(&self, key: K) -> (r: Entry<'_, K, V>)
        requires
            key_model_ok::<K>(),
        ensures
            r.wf(),
            r.slot_key() == key,
            r is Occupied <==> r.contents().contains_key(key),
    {
        let (mut store, handle) = self.inner.acquire_write();
        if store.contains_key(&key) {
            let value = store.remove(&key).unwrap();
            Entry::Occupied(OccupiedEntry::from_parts(key, value, store, handle))
        } else {
            Entry::Vacant(VacantEntry::from_parts(key, store, handle))
        }
    }
}

} // verus!

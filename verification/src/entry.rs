//! The entry state machine and the mapped guard.
//!
//! An [`Entry`] is produced by [`CarbonMap::entry`](crate::map::CarbonMap::entry)
//! while the container's exclusive lock is held; it owns the protected hash
//! table for its whole lifetime, which is what makes a chain of entry calls
//! atomic. An occupied entry keeps the key's value apart from the rest of
//! the table, so reading and mutating the slot never re-indexes the store.
//! A terminal operation turns the entry into a [`MappedWriteGuard`], whose
//! `release` puts the slot back and returns the table to the lock.

use std::collections::HashMap;
use std::hash::Hash;
use vstd::prelude::*;
use vstd::rwlock::WriteHandle;

use crate::map::StorePred;

verus! {

/// A presence-checked, lock-holding view of one key of the container.
pub enum Entry<'a, K, V> {
    Occupied(OccupiedEntry<'a, K, V>),
    Vacant(VacantEntry<'a, K, V>),
}

/// The key was present when the lock was acquired. The slot's value is held
/// directly; `rest` is the remainder of the store, which does not contain
/// the key.
pub struct OccupiedEntry<'a, K, V> {
    key: K,
    value: V,
    rest: HashMap<K, V>,
    handle: WriteHandle<'a, HashMap<K, V>, StorePred>,
}

/// The key was absent when the lock was acquired. The key is kept so that a
/// terminal operation can seed the slot.
pub struct VacantEntry<'a, K, V> {
    key: K,
    store: HashMap<K, V>,
    handle: WriteHandle<'a, HashMap<K, V>, StorePred>,
}

/// Exclusive access narrowed down to one value slot: the result of a
/// terminal entry operation. The container's lock stays held until
/// [`MappedWriteGuard::release`] puts the slot back into the store and
/// returns the store to the lock.
pub struct MappedWriteGuard<'a, K, V> {
    key: K,
    value: V,
    rest: HashMap<K, V>,
    handle: WriteHandle<'a, HashMap<K, V>, StorePred>,
}

impl<'a, K, V> OccupiedEntry<'a, K, V> {
    /// The key this entry was opened for.
    pub closed spec fn slot_key(&self) -> K {
        self.key
    }

    /// The value currently held in the slot.
    pub closed spec fn current(&self) -> V {
        self.value
    }

    /// The store as this entry sees it: the remainder plus the held slot.
    pub closed spec fn contents(&self) -> Map<K, V> {
        self.rest@.insert(self.key, self.value)
    }

    /// The slot is held apart from the remainder of the store.
    pub closed spec fn wf(&self) -> bool {
        !self.rest@.contains_key(self.key)
    }

    pub(crate) fn from_parts(
        key: K,
        value: V,
        rest: HashMap<K, V>,
        handle: WriteHandle<'a, HashMap<K, V>, StorePred>,
    ) -> (e: Self)
        requires
            !rest@.contains_key(key),
        ensures
            e.wf(),
            e.slot_key() == key,
            e.current() == value,
            e.contents() == rest@.insert(key, value),
    {
        OccupiedEntry { key, value, rest, handle }
    }

    /// A reference to the existing value.
    pub fn get(&self) -> (v: &V)
        ensures
            *v == self.current(),
            *v == self.contents()[self.slot_key()],
    {
        &self.value
    }

    /// Overwrite the existing value in place. (A mutable borrow of the slot
    /// cannot be handed out of a verified function, so mutation goes through
    /// this setter or through [`Entry::and_modify`].)
    pub fn set(&mut self, value: V)
        ensures
            final(self).slot_key() == old(self).slot_key(),
            final(self).current() == value,
            final(self).contents() == old(self).contents().insert(old(self).slot_key(), value),
            final(self).wf() == old(self).wf(),
    {
        self.value = value;
        proof {
            assert(self.contents() =~= old(self).contents().insert(old(self).slot_key(), value));
        }
    }

    /// Consume the entry into a guard over the existing value.
    fn into_guard(self) -> (g: MappedWriteGuard<'a, K, V>)
        ensures
            g.wf() == self.wf(),
            g.slot_key() == self.slot_key(),
            g.current() == self.current(),
            g.contents() == self.contents(),
    {
        let OccupiedEntry { key, value, rest, handle } = self;
        MappedWriteGuard { key, value, rest, handle }
    }
}

impl<'a, K, V> VacantEntry<'a, K, V> {
    /// The key this entry was opened for.
    pub closed spec fn slot_key(&self) -> K {
        self.key
    }

    /// The store as this entry sees it.
    pub closed spec fn contents(&self) -> Map<K, V> {
        self.store@
    }

    /// Vacant means exactly that the key is absent from the store.
    pub closed spec fn wf(&self) -> bool {
        !self.store@.contains_key(self.key)
    }

    pub(crate) fn from_parts(
        key: K,
        store: HashMap<K, V>,
        handle: WriteHandle<'a, HashMap<K, V>, StorePred>,
    ) -> (e: Self)
        requires
            !store@.contains_key(key),
        ensures
            e.wf(),
            e.slot_key() == key,
            e.contents() == store@,
    {
        VacantEntry { key, store, handle }
    }

    /// Seed the vacant slot with `value` and return a guard over it.
    pub fn insert(self, value: V) -> (g: MappedWriteGuard<'a, K, V>)
        requires
            self.wf(),
        ensures
            g.wf(),
            g.slot_key() == self.slot_key(),
            g.current() == value,
            g.contents() == self.contents().insert(self.slot_key(), value),
    {
        let VacantEntry { key, store, handle } = self;
        MappedWriteGuard { key, value, rest: store, handle }
    }
}

impl<'a, K, V> Entry<'a, K, V> {
    /// The key this entry was opened for.
    pub open spec fn slot_key(self) -> K {
        match self {
            Entry::Occupied(e) => e.slot_key(),
            Entry::Vacant(e) => e.slot_key(),
        }
    }

    /// The store as this entry sees it, the held slot included.
    pub open spec fn contents(self) -> Map<K, V> {
        match self {
            Entry::Occupied(e) => e.contents(),
            Entry::Vacant(e) => e.contents(),
        }
    }

    /// An entry is well-formed when its variant tells the truth about its
    /// key: occupied holds the key's slot apart from the remainder of the
    /// store, vacant means the key is absent.
    pub open spec fn wf(self) -> bool {
        &&& match self {
            Entry::Occupied(e) => e.wf(),
            Entry::Vacant(e) => e.wf(),
        }
        &&& (self is Occupied <==> self.contents().contains_key(self.slot_key()))
    }
}

impl<'a, K, V> Entry<'a, K, V> where K: Eq + Hash {
    /// Terminal: a guard over the existing value if occupied, over the
    /// freshly inserted `default` if vacant. An existing value is never
    /// replaced by the default.
    pub fn or_insert(self, default: V) -> (g: MappedWriteGuard<'a, K, V>)
        requires
            self.wf(),
        ensures
            g.wf(),
            g.slot_key() == self.slot_key(),
            self is Occupied ==> g.contents() == self.contents() && g.current()
                == self.contents()[self.slot_key()],
            self is Vacant ==> g.current() == default && g.contents() == self.contents().insert(
                self.slot_key(),
                default,
            ),
    {
        match self {
            Entry::Occupied(e) => e.into_guard(),
            Entry::Vacant(e) => e.insert(default),
        }
    }

    /// Terminal: like [`Entry::or_insert`], but the default is produced by
    /// `f`, which is evaluated only when the entry is actually vacant — so
    /// an occupied entry asks nothing of `f`, not even its precondition.
    pub fn or_insert_with<F: FnOnce() -> V>(self, f: F) -> (g: MappedWriteGuard<'a, K, V>)
        requires
            self.wf(),
            self is Vacant ==> call_requires(f, ()),
        ensures
            g.wf(),
            g.slot_key() == self.slot_key(),
            self is Occupied ==> g.contents() == self.contents() && g.current()
                == self.contents()[self.slot_key()],
            self is Vacant ==> call_ensures(f, (), g.current()) && g.contents()
                == self.contents().insert(self.slot_key(), g.current()),
    {
        match self {
            Entry::Occupied(e) => e.into_guard(),
            Entry::Vacant(e) => e.insert(f()),
        }
    }

    /// Non-terminal: apply `f` to the existing value if the entry is
    /// occupied (the slot then holds `f`'s result), do nothing if it is
    /// vacant. Returns the entry with its variant preserved, so further
    /// calls can be chained under the same lock acquisition.
    pub fn and_modify<F: FnOnce(V) -> V>(self, f: F) -> (r: Self)
        requires
            self.wf(),
            self is Occupied ==> call_requires(f, (self.contents()[self.slot_key()],)),
        ensures
            r.wf(),
            r.slot_key() == self.slot_key(),
            self is Vacant ==> r == self,
            self is Occupied ==> r is Occupied && call_ensures(
                f,
                (self.contents()[self.slot_key()],),
                r.contents()[r.slot_key()],
            ) && r.contents() == self.contents().insert(
                self.slot_key(),
                r.contents()[r.slot_key()],
            ),
    {
        let ghost orig_contents = self.contents();
        let ghost k = self.slot_key();
        match self {
            Entry::Occupied(e) => {
                let OccupiedEntry { key, value, rest, handle } = e;
                let new_value = f(value);
                let r = OccupiedEntry { key, value: new_value, rest, handle };
                proof {
                    assert(r.contents() =~= orig_contents.insert(k, r.contents()[r.slot_key()]));
                }
                Entry::Occupied(r)
            },
            e => e,
        }
    }

    /// Give the entry up without a terminal operation: the store goes back
    /// behind the lock unchanged and the lock is released.
    pub fn discard(self) {
        match self {
            Entry::Occupied(e) => {
                let OccupiedEntry { key, value, mut rest, handle } = e;
                let _ = rest.insert(key, value);
                handle.release_write(rest);
            },
            Entry::Vacant(e) => {
                let VacantEntry { key: _, store, handle } = e;
                handle.release_write(store);
            },
        }
    }
}

impl<'a, K, V> MappedWriteGuard<'a, K, V> {
    /// The key whose slot this guard covers.
    pub closed spec fn slot_key(&self) -> K {
        self.key
    }

    /// The value currently held in the slot.
    pub closed spec fn current(&self) -> V {
        self.value
    }

    /// The store as it will be put back on release: the remainder plus the
    /// held slot.
    pub closed spec fn contents(&self) -> Map<K, V> {
        self.rest@.insert(self.key, self.value)
    }

    /// The slot is held apart from the remainder of the store.
    pub closed spec fn wf(&self) -> bool {
        !self.rest@.contains_key(self.key)
    }

    /// A reference to the guarded value.
    pub fn get(&self) -> (v: &V)
        ensures
            *v == self.current(),
            *v == self.contents()[self.slot_key()],
    {
        &self.value
    }

    /// Overwrite the guarded value in place.
    pub fn set(&mut self, value: V)
        ensures
            final(self).slot_key() == old(self).slot_key(),
            final(self).current() == value,
            final(self).contents() == old(self).contents().insert(old(self).slot_key(), value),
            final(self).wf() == old(self).wf(),
    {
        self.value = value;
        proof {
            assert(self.contents() =~= old(self).contents().insert(old(self).slot_key(), value));
        }
    }
}

impl<'a, K, V> MappedWriteGuard<'a, K, V> where K: Eq + Hash {
    /// Put the slot back into the store, return the store to the lock, and
    /// release the lock.
    pub fn release(self) {
        let MappedWriteGuard { key, value, mut rest, handle } = self;
        let _ = rest.insert(key, value);
        handle.release_write(rest);
    }
}

} // verus!

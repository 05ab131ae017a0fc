//! The container's laws, stated over its mathematical model.
//!
//! Every operation's effect on the store it observed is a `Map` operation:
//! `insert` and the vacant terminal operations are `Map::insert`, `remove`
//! is `Map::remove`, and what `get` or an occupied entry reads is
//! [`lookup`]. The exclusive lock serializes all writing operations, so a
//! run of the container is a sequence of these steps; the laws below say
//! what such sequences leave behind.

use std::hash::Hash;
use vstd::prelude::*;

use crate::entry::{Entry, MappedWriteGuard};

verus! {

/// The sequential model of a lookup: the value the store holds for `k`,
/// if any.
pub open spec fn lookup<K, V>(m: Map<K, V>, k: K) -> Option<V> {
    if m.contains_key(k) {
        Some(m[k])
    } else {
        None
    }
}

/// After storing `v` under `k`, a lookup of `k` finds exactly `v`.
pub proof fn lemma_insert_then_lookup<K, V>(m: Map<K, V>, k: K, v: V)
    ensures
        lookup(m.insert(k, v), k) == Some(v),
{
}

/// Last write wins: storing `v1` and then `v2` under the same key leaves
/// `v2`, and leaves the very store a single insert of `v2` would have left.
pub proof fn lemma_last_write_wins<K, V>(m: Map<K, V>, k: K, v1: V, v2: V)
    ensures
        lookup(m.insert(k, v1).insert(k, v2), k) == Some(v2),
        m.insert(k, v1).insert(k, v2) == m.insert(k, v2),
{
    assert(m.insert(k, v1).insert(k, v2) =~= m.insert(k, v2));
}

/// Removal: what `remove` returns is what a lookup just before it would
/// have found; afterwards the key is absent; and removing an absent key
/// leaves the store unchanged.
pub proof fn lemma_remove<K, V>(m: Map<K, V>, k: K)
    ensures
        lookup(m, k) == (if m.contains_key(k) {
            Some(m[k])
        } else {
            None
        }),
        lookup(m.remove(k), k) == None::<V>,
        !m.contains_key(k) ==> m.remove(k) == m,
{
    if !m.contains_key(k) {
        assert(m.remove(k) =~= m);
    }
}

/// Frame: an insert under one key leaves every other key's binding alone.
pub proof fn lemma_insert_frame<K, V>(m: Map<K, V>, k: K, v: V, other: K)
    requires
        other != k,
    ensures
        lookup(m.insert(k, v), other) == lookup(m, other),
{
}

/// Frame: a removal of one key leaves every other key's binding alone.
pub proof fn lemma_remove_frame<K, V>(m: Map<K, V>, k: K, other: K)
    requires
        other != k,
    ensures
        lookup(m.remove(k), other) == lookup(m, other),
{
}

/// The store after a batch of inserts, applied in order.
pub open spec fn insert_all<K, V>(m: Map<K, V>, pairs: Seq<(K, V)>) -> Map<K, V>
    decreases pairs.len(),
{
    if pairs.len() == 0 {
        m
    } else {
        insert_all(m, pairs.drop_last()).insert(pairs.last().0, pairs.last().1)
    }
}

/// Visibility: when the keys of a batch of inserts are pairwise distinct —
/// as when several threads each insert a disjoint block of keys, in
/// whatever order the lock serializes them — every insert of the batch is
/// visible afterwards.
pub proof fn lemma_insert_all_visible<K, V>(m: Map<K, V>, pairs: Seq<(K, V)>, i: int)
    requires
        0 <= i < pairs.len(),
        forall|p: int, q: int|
            0 <= p < q < pairs.len() ==> (#[trigger] pairs[p]).0 != (#[trigger] pairs[q]).0,
    ensures
        lookup(insert_all(m, pairs), pairs[i].0) == Some(pairs[i].1),
    decreases pairs.len(),
{
    if i == pairs.len() - 1 {
        lemma_insert_then_lookup(insert_all(m, pairs.drop_last()), pairs[i].0, pairs[i].1);
    } else {
        lemma_insert_all_visible(m, pairs.drop_last(), i);
        lemma_insert_frame(
            insert_all(m, pairs.drop_last()),
            pairs.last().0,
            pairs.last().1,
            pairs[i].0,
        );
    }
}

/// One increment-or-initialize step: what the chain
/// `entry(k).and_modify(add one).or_insert(1)` does to the store it holds.
pub open spec fn counter_bump<K>(m: Map<K, u64>, k: K) -> Map<K, u64> {
    if m.contains_key(k) {
        m.insert(k, (m[k] + 1) as u64)
    } else {
        m.insert(k, 1u64)
    }
}

/// The store after `n` increment-or-initialize steps on `k`.
pub open spec fn counter_bumps<K>(m: Map<K, u64>, k: K, n: nat) -> Map<K, u64>
    decreases n,
{
    if n == 0 {
        m
    } else {
        counter_bump(counter_bumps(m, k, (n - 1) as nat), k)
    }
}

/// No lost updates: the exclusive lock serializes concurrent
/// increment-or-initialize chains into some order, and in every order, `n`
/// such steps on a key the store did not hold leave the counter at exactly
/// `n` — for example, `n` threads times `k` chains each give `n * k`.
pub proof fn lemma_counter_bumps_exact<K>(m: Map<K, u64>, k: K, n: nat)
    requires
        !m.contains_key(k),
        n <= u64::MAX,
    ensures
        n > 0 ==> lookup(counter_bumps(m, k, n), k) == Some(n as u64),
    decreases n,
{
    if n > 0 {
        lemma_counter_bumps_exact(m, k, (n - 1) as nat);
    }
}

/// The increment-or-initialize chain itself, verified once for every
/// entry: one step of [`counter_bump`] on the store the entry holds,
/// performed atomically under the entry's lock.
pub fn increment_or_init<'a, K: Eq + Hash>(e: Entry<'a, K, u64>) -> (g: MappedWriteGuard<'a, K, u64>)
    requires
        e.wf(),
        e is Occupied ==> e.contents()[e.slot_key()] < u64::MAX,
    ensures
        g.wf(),
        g.slot_key() == e.slot_key(),
        g.contents() == counter_bump(e.contents(), e.slot_key()),
        g.current() == lookup(counter_bump(e.contents(), e.slot_key()), e.slot_key()).unwrap(),
{
    let add_one = |v: u64| -> (r: u64)
        requires
            v < u64::MAX,
        ensures
            r == v + 1,
        {
            v + 1
        };
    let bumped = e.and_modify(add_one);
    bumped.or_insert(1)
}

} // verus!

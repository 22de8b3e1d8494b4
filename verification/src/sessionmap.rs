//! The sequential core of the session store: a hash map from keys to session
//! values with the exact operation semantics of the store, stated over a
//! mathematical `Map` view and fully verified.
//!
//! The concurrent store in [`crate::hashsession`] owns one `SessionMap`
//! behind a reader/writer lock and performs every operation on it while
//! holding that lock, so the contracts here are the functional meaning of
//! the whole store.

use core::hash::Hash;
use std::collections::HashMap;
use vstd::prelude::*;
use vstd::std_specs::hash::obeys_key_model;

verus! {

/// What a lookup yields on a map state: the value under the key, or nothing.
pub open spec fn find_spec<K, V>(m: Map<K, V>, key: K) -> Option<V> {
    if m.contains_key(key) {
        Some(m[key])
    } else {
        None
    }
}

/// How `insert` transforms a map state: a new entry when the key is absent,
/// no change at all when it is present (insert never overwrites).
pub open spec fn insert_spec<K, V>(m: Map<K, V>, key: K, value: V) -> Map<K, V> {
    if m.contains_key(key) {
        m
    } else {
        m.insert(key, value)
    }
}

/// How `swap` transforms a map state: an unconditional replace on hit,
/// an insert on miss.
pub open spec fn swap_spec<K, V>(m: Map<K, V>, key: K, value: V) -> Map<K, V> {
    m.insert(key, value)
}

/// How `upsert` transforms a map state when the mutator's input/output
/// relation is the function `f`: the mutated value replaces a present one;
/// an absent key receives the default, with `f` not applied.
pub open spec fn upsert_spec<K, V>(m: Map<K, V>, key: K, default_value: V, f: spec_fn(V) -> V) -> Map<K, V> {
    if m.contains_key(key) {
        m.insert(key, f(m[key]))
    } else {
        m.insert(key, default_value)
    }
}

/// What `upsert` returns on a map state, under the same mutator function `f`.
pub open spec fn upsert_result_spec<K, V>(m: Map<K, V>, key: K, default_value: V, f: spec_fn(V) -> V) -> V {
    if m.contains_key(key) {
        f(m[key])
    } else {
        default_value
    }
}

/// A map from session keys to session values.  At most one entry exists per
/// distinct key; a present entry is never overwritten by `insert`.
///
/// The abstract state is a `Map<K, V>`, reached through `@`.
#[verifier::reject_recursive_types(K)]
#[verifier::reject_recursive_types(V)]
pub struct SessionMap<K, V> {
    m: HashMap<K, V>,
}

impl<K, Val> View for SessionMap<K, Val> {
    type V = Map<K, Val>;

    closed spec fn view(&self) -> Map<K, Val> {
        self.m@
    }
}

impl<K: Eq + Hash, V> SessionMap<K, V> {
    /// Well-formedness: the key type behaves as a hash-table key must (its
    /// equality, hash and clone are consistent and deterministic), so the
    /// map's view faithfully tracks its contents.  Constructors establish
    /// this and every operation preserves it.
    pub closed spec fn wf(self) -> bool {
        obeys_key_model::<K>()
    }

    /// Creates an empty map.
    pub fn new() -> (result: Self)
        requires
            obeys_key_model::<K>(),
        ensures
            result.wf(),
            result@ == Map::<K, V>::empty(),
    {
        SessionMap { m: HashMap::new() }
    }

    /// Returns whether an entry exists for `key`.
    pub fn contains_key(&self, key: &K) -> (result: bool)
        requires
            self.wf(),
        ensures
            result == self@.contains_key(*key),
    {
        self.m.contains_key(key)
    }

    /// Returns the current value under `key`, or nothing when the key is
    /// absent.  Absence is a representable outcome, not an error.
    pub fn find<'a>(&'a self, key: &K) -> (result: Option<&'a V>)
        requires
            self.wf(),
        ensures
            match result {
                Some(value) => find_spec(self@, *key) == Some(*value),
                None => find_spec(self@, *key) is None,
            },
    {
        self.m.get(key)
    }

    /// Ensures an entry exists for `key`: creates one holding `value` when
    /// the key is absent, and preserves the existing value when it is
    /// present (idempotent-if-present, never an overwrite).
    pub fn insert(&mut self, key: K, value: V)
        requires
            old(self).wf(),
        ensures
            final(self).wf(),
            final(self)@ == insert_spec(old(self)@, key, value),
    {
        if !self.m.contains_key(&key) {
            self.m.insert(key, value);
        }
    }

    /// Replaces the value under `key` with `value` and returns the previous
    /// value; when the key is absent, creates the entry and returns nothing.
    pub fn swap(&mut self, key: K, value: V) -> (previous: Option<V>)
        requires
            old(self).wf(),
        ensures
            final(self).wf(),
            final(self)@ == swap_spec(old(self)@, key, value),
            previous == find_spec(old(self)@, key),
    {
        self.m.insert(key, value)
    }

    /// Merge-updates the entry for `key`: applies `mutator` to a present
    /// value and stores the result; inserts `default_value` when the key is
    /// absent, with the mutator not applied on that path.  Returns a copy of
    /// the value the entry now holds.
    pub fn upsert<F: Fn(V) -> V>(&mut self, key: K, default_value: V, mutator: F) -> (result: V) where
        V: Clone,

        requires
            old(self).wf(),
            old(self)@.contains_key(key) ==> call_requires(mutator, (old(self)@[key],)),
        ensures
            final(self).wf(),
            old(self)@.contains_key(key) ==> {
                &&& call_ensures(mutator, (old(self)@[key],), final(self)@[key])
                &&& final(self)@ == old(self)@.insert(key, final(self)@[key])
                &&& cloned::<V>(final(self)@[key], result)
            },
            !old(self)@.contains_key(key) ==> {
                &&& final(self)@ == old(self)@.insert(key, default_value)
                &&& cloned::<V>(default_value, result)
            },
    {
        match self.m.remove(&key) {
            Some(value) => {
                let mutated = mutator(value);
                let result = mutated.clone();
                self.m.insert(key, mutated);
                result
            },
            None => {
                let result = default_value.clone();
                self.m.insert(key, default_value);
                result
            },
        }
    }

    /// Removes the entry for `key`; returns whether one was removed.  On an
    /// absent key this is a no-op.
    pub fn remove(&mut self, key: &K) -> (removed: bool)
        requires
            old(self).wf(),
        ensures
            final(self).wf(),
            removed == old(self)@.contains_key(*key),
            removed ==> final(self)@ == old(self)@.remove(*key),
            !removed ==> final(self)@ == old(self)@,
    {
        match self.m.remove(key) {
            Some(_) => true,
            None => false,
        }
    }
}

/// A key that has no entry is not found: on any map state that does not
/// contain `key`, a lookup yields nothing.
pub proof fn lemma_find_absent<K, V>(m: Map<K, V>, key: K)
    requires
        !m.contains_key(key),
    ensures
        find_spec(m, key) is None,
{
}

/// Insert never overwrites: after inserting `v1` under a fresh key and then
/// inserting `v2` under the same key, a lookup still yields `v1`.
pub proof fn lemma_insert_preserves_existing<K, V>(m: Map<K, V>, key: K, v1: V, v2: V)
    requires
        !m.contains_key(key),
    ensures
        find_spec(insert_spec(insert_spec(m, key, v1), key, v2), key) == Some(v1),
{
}

/// Swap on an absent key returns nothing and leaves the swapped-in value
/// under the key.
pub proof fn lemma_swap_absent<K, V>(m: Map<K, V>, key: K, value: V)
    requires
        !m.contains_key(key),
    ensures
        find_spec(m, key) is None,
        find_spec(swap_spec(m, key, value), key) == Some(value),
{
}

/// Swap on a key holding `v1` returns `v1` and leaves `v2` under the key.
pub proof fn lemma_swap_present<K, V>(m: Map<K, V>, key: K, v1: V, v2: V)
    requires
        m.contains_key(key),
        m[key] == v1,
    ensures
        find_spec(m, key) == Some(v1),
        find_spec(swap_spec(m, key, v2), key) == Some(v2),
{
}

/// Upsert on an absent key returns the default unmutated and leaves the
/// default under the key, for any mutator function `f`.
pub proof fn lemma_upsert_absent<K, V>(m: Map<K, V>, key: K, default_value: V, f: spec_fn(V) -> V)
    requires
        !m.contains_key(key),
    ensures
        upsert_result_spec(m, key, default_value, f) == default_value,
        find_spec(upsert_spec(m, key, default_value, f), key) == Some(default_value),
{
}

/// Upsert on a key holding `v` returns the mutated value `f(v)` and leaves
/// it under the key.
pub proof fn lemma_upsert_present<K, V>(m: Map<K, V>, key: K, default_value: V, f: spec_fn(V) -> V)
    requires
        m.contains_key(key),
    ensures
        upsert_result_spec(m, key, default_value, f) == f(m[key]),
        find_spec(upsert_spec(m, key, default_value, f), key) == Some(f(m[key])),
{
}

/// The counting mutator.
pub open spec fn increment(v: int) -> int {
    v + 1
}

/// The map state after `n` upserts of the counting mutator against `key`.
pub open spec fn repeated_upserts<K>(m: Map<K, int>, key: K, n: nat) -> Map<K, int>
    decreases n,
{
    if n == 0 {
        m
    } else {
        upsert_spec(repeated_upserts(m, key, (n - 1) as nat), key, 0, |v: int| increment(v))
    }
}

/// No update is lost within one serialization of upserts: `n` applications
/// of the counting mutator against a key holding `c` leave `c + n` under the
/// key.  (Each concurrent `upsert` runs its mutation under the write lock,
/// so any interleaving serializes into such a sequence.)
pub proof fn lemma_repeated_upserts_count_every_update<K>(m: Map<K, int>, key: K, n: nat)
    requires
        m.contains_key(key),
    ensures
        find_spec(repeated_upserts(m, key, n), key) == Some(m[key] + n),
    decreases n,
{
    if n > 0 {
        lemma_repeated_upserts_count_every_update(m, key, (n - 1) as nat);
    }
}

/// Operations against one key leave what any other key holds untouched, so
/// work on disjoint keys is independent.
pub proof fn lemma_disjoint_keys_independent<K, V>(m: Map<K, V>, k1: K, value: V, k2: K)
    requires
        k1 != k2,
    ensures
        find_spec(insert_spec(m, k1, value), k2) == find_spec(m, k2),
        find_spec(swap_spec(m, k1, value), k2) == find_spec(m, k2),
        find_spec(m.remove(k1), k2) == find_spec(m, k2),
{
}

/// Removing a present key leaves nothing to find under it; removing an
/// absent key changes nothing (that half is stated by `remove` itself).
pub proof fn lemma_remove_present<K, V>(m: Map<K, V>, key: K)
    requires
        m.contains_key(key),
    ensures
        find_spec(m.remove(key), key) is None,
{
}

} // verus!

//! The per-request session handle: one resolved key bound to one store, so
//! that downstream pipeline stages can operate on "the session" without
//! re-supplying either.
//!
//! A handle owns no session data; it is a capability to operate on one entry
//! of the store it aliases.  Dropping it has no effect on the store.  Every
//! operation is a pure delegation to the bound store with the bound key; no
//! state or locking is added at this layer.

use core::marker::PhantomData;
use vstd::prelude::*;

use crate::sessionstore::SessionStore;

verus! {

/// A lightweight handle pairing a shared session store with one key.
pub struct Session<K, V, S: SessionStore<K, V>> {
    key: K,
    store: S,
    values: PhantomData<V>,
}

impl<K: Clone, V, S: SessionStore<K, V>> Session<K, V, S> {
    /// The key this handle is bound to.
    pub closed spec fn bound_key(self) -> K {
        self.key
    }

    /// The store this handle operates on.
    pub closed spec fn bound_store(self) -> S {
        self.store
    }

    /// Binds `key` to `store`.  No session is created: the entry for `key`
    /// appears only once a downstream caller inserts one.
    pub fn new(store: S, key: K) -> (result: Self)
        ensures
            result.bound_key() == key,
            result.bound_store() == store,
    {
        Session { key, store, values: PhantomData }
    }

    /// Ensures this session exists, holding `value` when it did not; an
    /// existing session's value is preserved.
    pub fn insert(&self, value: V) {
        self.store.insert(self.key.clone(), value);
    }

    /// Returns a copy of this session's value, or nothing when no session
    /// exists.
    pub fn find(&self) -> Option<V> {
        self.store.find(&self.key)
    }

    /// Replaces this session's value with `value`, returning the previous
    /// one; creates the session when none exists and returns nothing.
    pub fn swap(&self, value: V) -> Option<V> {
        self.store.swap(self.key.clone(), value)
    }

    /// Merge-updates this session: mutates an existing value in the store,
    /// or inserts `default_value` unmutated.  Returns a copy of the value
    /// the session now holds.
    pub fn upsert<F: Fn(V) -> V>(&self, default_value: V, mutator: F) -> V
        requires
            forall|v: V| call_requires(mutator, (v,)),
    {
        self.store.upsert(self.key.clone(), default_value, mutator)
    }

    /// Deletes this session; returns whether one existed.
    pub fn remove(&self) -> bool {
        self.store.remove(&self.key)
    }
}

} // verus!

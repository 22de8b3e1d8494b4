//! The capability contract of a session store: the operations a store offers
//! over one key/value pair, polymorphic over the concrete storage strategy.
//!
//! Every operation takes the store by shared reference: a store is meant to
//! be shared across request-handling threads, so mutation happens behind its
//! own internal synchronization.  For that same reason no sequential
//! before/after contract can be stated here; the canonical implementation,
//! [`crate::hashsession::HashSessionStore`], carries the verified functional
//! semantics on its sequential core, [`crate::sessionmap::SessionMap`].

use vstd::prelude::*;

verus! {

/// The operations of a session store over keys `K` and values `V`.
pub trait SessionStore<K, V>: Sized {
    /// Hands out another handle to this store.  The result equals the store
    /// it was cloned from, so a caller holding both knows they operate on
    /// the same entries: a store is shared, never duplicated.
    fn clone_store(&self) -> (result: Self)
        ensures
            result == *self,
    ;

    /// Ensures an entry exists for `key`: creates one holding `value` when
    /// the key is absent; preserves an existing value (never an overwrite).
    fn insert(&self, key: K, value: V);

    /// Returns a copy of the current value under `key`, or nothing when the
    /// key is absent.
    fn find(&self, key: &K) -> Option<V>;

    /// Replaces the value under `key` with `value` and returns the previous
    /// value; when the key is absent, creates the entry and returns nothing.
    fn swap(&self, key: K, value: V) -> Option<V>;

    /// Merge-updates the entry for `key`: applies `mutator` to a present
    /// value and stores the result; inserts `default_value` when the key is
    /// absent, with the mutator not applied on that path.  Returns a copy of
    /// the value the entry now holds.  The mutator must accept any value,
    /// since the store decides which one it observes.
    fn upsert<F: Fn(V) -> V>(&self, key: K, default_value: V, mutator: F) -> V
        requires
            forall|v: V| call_requires(mutator, (v,)),
    ;

    /// Removes the entry for `key`; returns whether one was removed.
    fn remove(&self, key: &K) -> bool;
}

} // verus!

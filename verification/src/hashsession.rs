//! The canonical session store: the verified sequential core behind a
//! verified reader/writer lock, shared by reference count.
//!
//! Every clone of a [`HashSessionStore`] aliases the same underlying map, so
//! all session handles derived from a store observe one shared state.  The
//! lock's invariant keeps the map well formed, so each operation performed
//! under the lock enjoys the full contracts of
//! [`crate::sessionmap::SessionMap`]; writes on the map serialize behind the
//! write lock, reads share the read lock, and no reader can observe a
//! partially applied mutation.
//!
//! The lock guards the whole map, so an operation that may change any entry
//! needs the write lock; `swap`, `upsert` and `remove` take it at once.
//! `insert` and `find`, the operations that finish without writing whenever
//! the key already exists (the common case after warm-up), work under the
//! read lock: `insert` probes for the key there and escalates to the write
//! lock only on a miss, so lookups and repeated inserts of an existing key
//! never contend on the write lock.  Two threads may both observe a key
//! absent and both escalate; the insert each then performs is
//! idempotent-if-present on the sequential core, so the race is benign and
//! the first value stored under the key wins.

use core::hash::Hash;
use std::sync::Arc;
use vstd::prelude::*;
use vstd::rwlock::{RwLock, RwLockPredicate};
use vstd::std_specs::hash::obeys_key_model;

use crate::sessionmap::SessionMap;
use crate::sessionstore::SessionStore;

verus! {

/// Relies on alloc::sync::Arc::clone: the clone is a new reference-counted
/// handle to the same allocation, so it carries the same value and aliases
/// the same shared state.
#[verifier::external_body]
fn clone_arc<T>(this: &Arc<T>) -> (result: Arc<T>)
    ensures
        result == *this,
{
    this.clone()
}

/// The invariant of the store's lock: any map the lock guards is well
/// formed, so every operation performed under the lock keeps its contracts.
pub struct StorePred;

impl<K: Eq + Hash, V> RwLockPredicate<SessionMap<K, V>> for StorePred {
    open spec fn inv(self, m: SessionMap<K, V>) -> bool {
        m.wf()
    }
}

/// A session store backed by a reader/writer-locked hash map, shared by
/// reference count: cloning the store aliases the same map.  Safe for
/// unsynchronized concurrent use from any number of threads, for the same or
/// different keys.
#[verifier::reject_recursive_types(K)]
#[verifier::reject_recursive_types(V)]
pub struct HashSessionStore<K: Eq + Hash, V> {
    store: Arc<RwLock<SessionMap<K, V>, StorePred>>,
}

impl<K: Eq + Hash, V> HashSessionStore<K, V> {
    /// Creates a new, empty session store.
    pub fn new() -> (result: Self)
        requires
            obeys_key_model::<K>(),
    {
        HashSessionStore { store: Arc::new(RwLock::new(SessionMap::new(), Ghost(StorePred))) }
    }
}

impl<K: Eq + Hash, V> Clone for HashSessionStore<K, V> {
    /// The clone shares the same underlying map: it holds another
    /// reference-counted handle to the same lock.
    fn clone(&self) -> (result: Self)
        ensures
            result == *self,
    {
        HashSessionStore { store: clone_arc(&self.store) }
    }
}

impl<K: Eq + Hash, V: Clone> SessionStore<K, V> for HashSessionStore<K, V> {
    fn clone_store(&self) -> (result: Self) {
        self.clone()
    }

    fn insert(&self, key: K, value: V) {
        let read_handle = self.store.acquire_read();
        let present = read_handle.borrow().contains_key(&key);
        read_handle.release_read();
        if !present {
            let (mut m, write_handle) = self.store.acquire_write();
            m.insert(key, value);
            write_handle.release_write(m);
        }
    }

    fn find(&self, key: &K) -> Option<V> {
        let read_handle = self.store.acquire_read();
        let result = match read_handle.borrow().find(key) {
            Some(value) => Some(value.clone()),
            None => None,
        };
        read_handle.release_read();
        result
    }

    fn swap(&self, key: K, value: V) -> Option<V> {
        let (mut m, write_handle) = self.store.acquire_write();
        let previous = m.swap(key, value);
        write_handle.release_write(m);
        previous
    }

    fn upsert<F: Fn(V) -> V>(&self, key: K, default_value: V, mutator: F) -> V {
        let (mut m, write_handle) = self.store.acquire_write();
        let result = m.upsert(key, default_value, mutator);
        write_handle.release_write(m);
        result
    }

    fn remove(&self, key: &K) -> bool {
        let (mut m, write_handle) = self.store.acquire_write();
        let removed = m.remove(key);
        write_handle.release_write(m);
        removed
    }
}

} // verus!

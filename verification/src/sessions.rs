//! The sessioning middleware: a key-generating function paired with a
//! session store.
//!
//! On each request the middleware derives a key from the request and binds a
//! [`Session`] handle to (store, key) for downstream pipeline stages.  The
//! key is only derived here; no session is created until a downstream stage
//! inserts one.  The request type, like the key derivation, is the
//! integrator's: any value the generator accepts can stand for a request,
//! including a reference to the pipeline's own request structure.
//!
//! Cloning the middleware shares the underlying store rather than
//! duplicating it, so every handle derived from any clone operates on the
//! same sessions.

use core::marker::PhantomData;
use vstd::prelude::*;

use crate::session::Session;
use crate::sessionstore::SessionStore;

verus! {

/// Sessioning middleware over requests `R`, built from a key generator `G`
/// and a session store `S`.
///
/// Identical keys map to the same session, so the generator should derive
/// unique keys for requests that must not share state.
#[verifier::reject_recursive_types(R)]
#[verifier::reject_recursive_types(K)]
pub struct Sessions<R, K, V, S: SessionStore<K, V>, G: Fn(R) -> K> {
    key_generator: G,
    session_store: S,
    requests: PhantomData<(R, K, V)>,
}

impl<R, K: Clone, V, S: SessionStore<K, V>, G: Fn(R) -> K> Sessions<R, K, V, S, G> {
    /// The key-generating function supplied at construction.
    pub closed spec fn generator(self) -> G {
        self.key_generator
    }

    /// The store supplied at construction.
    pub closed spec fn store(self) -> S {
        self.session_store
    }

    /// Builds sessioning middleware from the given key-generating function
    /// and session store.
    pub fn new(key_generator: G, store: S) -> (result: Self)
        ensures
            result.generator() == key_generator,
            result.store() == store,
    {
        Sessions { key_generator, session_store: store, requests: PhantomData }
    }

    /// The per-request step: derives the key for `req` and binds a session
    /// handle to it.  No session is created; the handle is the capability
    /// downstream stages use to read or write one.
    ///
    /// The handle operates on this middleware's own store — it receives
    /// another handle to the same store, never a duplicate.
    pub fn session_for(&self, req: R) -> (result: Session<K, V, S>)
        requires
            call_requires(self.generator(), (req,)),
        ensures
            call_ensures(self.generator(), (req,), result.bound_key()),
            result.bound_store() == self.store(),
    {
        let key = (self.key_generator)(req);
        Session::new(self.session_store.clone_store(), key)
    }
}

impl<R, K: Clone, V, S: SessionStore<K, V>, G: Fn(R) -> K + Copy> Clone for Sessions<
    R,
    K,
    V,
    S,
    G,
> {
    /// The clone derives keys exactly as the original does and operates on
    /// the same store: middleware is shared, never duplicated, so sessions
    /// selected through the clone and through the original are the same.
    fn clone(&self) -> (result: Self)
        ensures
            result.generator() == self.generator(),
            result.store() == self.store(),
    {
        Sessions {
            key_generator: self.key_generator,
            session_store: self.session_store.clone_store(),
            requests: PhantomData,
        }
    }
}

} // verus!

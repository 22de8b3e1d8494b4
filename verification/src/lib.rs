//! Request-scoped, key-addressed session storage.
//!
//! The heart of the crate is a concurrent session store: a shared,
//! thread-safe mapping from a caller-chosen key to a per-key mutable value
//! (a "session"), supporting `insert`, `find`, `swap`, `upsert` and `remove`
//! from many request-handling threads at once.
//!
//! The functional behaviour of every operation is specified and verified on
//! the sequential core, [`sessionmap::SessionMap`]; the concurrent store,
//! [`hashsession::HashSessionStore`], runs that core under a verified
//! reader/writer lock whose invariant keeps the map well formed.  The
//! [`sessions::Sessions`] middleware derives a key per request and hands out
//! a [`session::Session`] handle bound to one (store, key) pair.

pub mod hashsession;
pub mod session;
pub mod sessionmap;
pub mod sessions;
pub mod sessionstore;

pub use hashsession::HashSessionStore;
pub use session::Session;
pub use sessionmap::SessionMap;
pub use sessions::Sessions;
pub use sessionstore::SessionStore;

//! Tests of the session store through the middleware, the per-request
//! handle and the store itself.

use session::{HashSessionStore, Session, SessionStore, Sessions};

struct TestRequest {
    url: String,
}

fn test_request() -> TestRequest {
    TestRequest { url: "localhost:3000".to_string() }
}

fn get_session_id(_: &TestRequest) -> char {
    'a'
}

/// One request's session handle, bound the way the middleware binds it.
fn char_session() -> Session<char, char, HashSessionStore<char, char>> {
    let sessions = Sessions::new(get_session_id, HashSessionStore::<char, char>::new());
    let req = test_request();
    assert_eq!(req.url, "localhost:3000");
    sessions.session_for(&req)
}

#[test]
fn starts_with_empty_session() {
    let session = char_session();
    assert_eq!(session.find(), None);
}

#[test]
fn finds_session() {
    let session = char_session();
    session.insert('a');
    assert_eq!(session.find(), Some('a'));
}

#[test]
fn swaps_session_when_empty() {
    let session = char_session();
    session.swap('b');
    assert_eq!(session.find(), Some('b'));
}

#[test]
fn swaps_session_when_non_empty() {
    let session = char_session();
    session.insert('a');
    session.swap('b');
    assert_eq!(session.find(), Some('b'));
}

#[test]
fn swaps_session_when_same_valued() {
    let session = char_session();
    session.insert('b');
    session.swap('b');
    assert_eq!(session.find(), Some('b'));
}

#[test]
fn inserts_session_when_empty() {
    let session = char_session();
    let _ = session.upsert('b', |_current: char| 'a');
    assert_eq!(session.find(), Some('b'));
}

#[test]
fn mutates_session_when_non_empty() {
    let session = char_session();
    session.insert('b');
    let _ = session.upsert('b', |_current: char| 'a');
    assert_eq!(session.find(), Some('a'));
}

#[test]
fn removes_session() {
    let session = char_session();
    session.insert('a');
    assert_eq!(session.find(), Some('a'));
    session.remove();
    assert_eq!(session.find(), None);
}

#[test]
fn finds_nothing_under_fresh_keys() {
    let store = HashSessionStore::<u64, u32>::new();
    assert_eq!(store.find(&0), None);
    assert_eq!(store.find(&1), None);
    assert_eq!(store.find(&u64::MAX), None);
}

#[test]
fn insert_never_overwrites() {
    let store = HashSessionStore::<char, u32>::new();
    store.insert('k', 1);
    store.insert('k', 2);
    assert_eq!(store.find(&'k'), Some(1));
}

#[test]
fn swap_returns_previous_value() {
    let store = HashSessionStore::<char, u32>::new();
    assert_eq!(store.swap('k', 5), None);
    assert_eq!(store.find(&'k'), Some(5));
    assert_eq!(store.swap('k', 6), Some(5));
    assert_eq!(store.find(&'k'), Some(6));
}

#[test]
fn upsert_miss_returns_default_unmutated() {
    let store = HashSessionStore::<char, u32>::new();
    let result = store.upsert('k', 5, |count: u32| count + 1);
    assert_eq!(result, 5);
    assert_eq!(store.find(&'k'), Some(5));
}

#[test]
fn upsert_hit_returns_mutated_value() {
    let store = HashSessionStore::<char, u32>::new();
    store.insert('k', 5);
    let result = store.upsert('k', 0, |count: u32| count + 1);
    assert_eq!(result, 6);
    assert_eq!(store.find(&'k'), Some(6));
}

#[test]
fn remove_reports_whether_present() {
    let store = HashSessionStore::<char, u32>::new();
    assert_eq!(store.remove(&'k'), false);
    store.insert('k', 9);
    assert_eq!(store.remove(&'k'), true);
    assert_eq!(store.find(&'k'), None);
    assert_eq!(store.remove(&'k'), false);
}

#[test]
fn upsert_counts_every_update() {
    let store = HashSessionStore::<char, u64>::new();
    store.insert('n', 0);
    for _ in 0..100 {
        let _ = store.upsert('n', 0, |count: u64| count + 1);
    }
    assert_eq!(store.find(&'n'), Some(100));
}

#[test]
fn operations_on_disjoint_keys_are_independent() {
    let store = HashSessionStore::<u64, u32>::new();
    for key in 0..50u64 {
        store.insert(key, key as u32);
    }
    for key in 0..50u64 {
        assert_eq!(store.find(&key), Some(key as u32));
    }
    store.remove(&7);
    assert_eq!(store.find(&7), None);
    assert_eq!(store.find(&8), Some(8));
}

#[test]
fn cloned_store_shares_sessions() {
    let store = HashSessionStore::<char, u32>::new();
    let alias = store.clone();
    store.insert('k', 3);
    assert_eq!(alias.find(&'k'), Some(3));
    alias.swap('k', 4);
    assert_eq!(store.find(&'k'), Some(4));
    assert!(alias.remove(&'k'));
    assert_eq!(store.find(&'k'), None);
}

#[test]
fn clone_store_hands_out_the_same_store() {
    let store = HashSessionStore::<char, u32>::new();
    let alias = store.clone_store();
    store.insert('k', 3);
    assert_eq!(alias.find(&'k'), Some(3));
    alias.swap('k', 4);
    assert_eq!(store.find(&'k'), Some(4));
}

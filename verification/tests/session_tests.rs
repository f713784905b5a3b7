use lumos_gateway::session::{AuthState, SessionInfo, SessionStore};

fn info(name: &str, t: i64) -> SessionInfo {
    SessionInfo { username: name.to_string(), created_at: t, last_activity: t }
}

#[test]
fn a_new_store_holds_nothing() {
    let store = SessionStore::new();
    assert!(!store.contains("anything"));
    assert!(store.lookup("anything").is_none());
}

#[test]
fn insert_then_lookup_round_trips() {
    let mut store = SessionStore::new();
    store.insert("tok-1".to_string(), info("admin", 100));
    assert!(store.contains("tok-1"));
    let got = store.lookup("tok-1").expect("the session");
    assert_eq!(got.username, "admin");
    assert_eq!(got.created_at, 100);
    assert_eq!(got.last_activity, 100);
    assert!(!store.contains("tok-2"));
}

#[test]
fn insert_under_a_held_id_replaces_the_session() {
    let mut store = SessionStore::new();
    store.insert("tok".to_string(), info("admin", 1));
    store.insert("tok".to_string(), info("admin", 2));
    let got = store.lookup("tok").expect("the session");
    assert_eq!(got.created_at, 2);
}

#[test]
fn remove_says_whether_a_session_was_live() {
    let mut store = SessionStore::new();
    store.insert("a".to_string(), info("admin", 1));
    store.insert("b".to_string(), info("admin", 2));
    assert!(store.remove("a"));
    assert!(!store.contains("a"));
    assert!(store.contains("b"));
    assert!(!store.remove("a"));
    assert!(store.remove("b"));
    assert!(!store.remove("never"));
}

#[test]
fn a_fresh_auth_state_has_an_empty_store() {
    let state = AuthState::new();
    assert!(!state.sessions.contains("x"));
}

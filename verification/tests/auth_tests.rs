use lumos_gateway::auth::{
    authenticate, authorize, login, logout, revoke, verify_basic_auth, AuthError, HeaderInput,
    LoginRequest, MalformedKind,
};
use lumos_gateway::session::{AuthState, SessionStore};

fn basic_header(creds: &[u8]) -> HeaderInput {
    let encoded = base64::Engine::encode(&base64::engine::general_purpose::STANDARD, creds);
    HeaderInput::Text(format!("Basic {}", encoded))
}

#[test]
fn login_success_mints_session() {
    let mut state = AuthState::new();
    let req = LoginRequest { username: "admin".to_string(), password: "admin123".to_string() };
    let resp = login(&mut state.sessions, &req);
    assert!(resp.success);
    assert_eq!(resp.username.as_deref(), Some("admin"));
    assert!(resp.error.is_none());
    let sid = resp.session_id.expect("a session id");
    assert!(state.sessions.contains(sid.as_str()));
    let info = state.sessions.lookup(sid.as_str()).expect("the stored session");
    assert_eq!(info.username, "admin");
    assert_eq!(info.created_at, info.last_activity);
    assert!(info.created_at > 0);
}

#[test]
fn login_wrong_credentials_rejected() {
    let mut state = AuthState::new();
    let req = LoginRequest { username: "admin".to_string(), password: "nope".to_string() };
    let resp = login(&mut state.sessions, &req);
    assert!(!resp.success);
    assert!(resp.session_id.is_none());
    assert!(resp.username.is_none());
    assert_eq!(resp.error.as_deref(), Some("Invalid credentials"));
}

#[test]
fn authenticate_mints_fresh_distinct_ids() {
    let mut store = SessionStore::new();
    let s1 = authenticate(&mut store, "admin", "admin123").expect("first login");
    assert!(store.contains(s1.id.as_str()));
    let s2 = authenticate(&mut store, "admin", "admin123").expect("second login");
    assert_ne!(s1.id, s2.id);
    assert!(store.contains(s1.id.as_str()));
    assert!(store.contains(s2.id.as_str()));
}

#[test]
fn authenticate_rejects_wrong_pair() {
    let mut store = SessionStore::new();
    let e = authenticate(&mut store, "admin", "wrong").unwrap_err();
    assert_eq!(e, AuthError::InvalidCredentials);
    let e2 = authenticate(&mut store, "root", "admin123").unwrap_err();
    assert_eq!(e2, AuthError::InvalidCredentials);
}

#[test]
fn authorize_after_revoke_is_not_found() {
    let mut store = SessionStore::new();
    let sess = authenticate(&mut store, "admin", "admin123").expect("login");
    let tok = sess.id.clone();
    assert!(authorize(&store, tok.as_str()).is_ok());
    assert!(revoke(&mut store, tok.as_str()));
    let e = authorize(&store, tok.as_str()).unwrap_err();
    assert_eq!(e, AuthError::SessionNotFound);
    assert!(!revoke(&mut store, tok.as_str()));
}

#[test]
fn basic_auth_valid_header_mints_session() {
    let mut store = SessionStore::new();
    let h = basic_header(b"admin:admin123");
    let id = verify_basic_auth(&mut store, &h).expect("a session");
    assert!(store.contains(id.as_str()));
    let info = store.lookup(id.as_str()).expect("the stored session");
    assert_eq!(info.username, "admin");
}

#[test]
fn basic_auth_bad_base64_is_malformed_not_credentials() {
    let mut store = SessionStore::new();
    let h = HeaderInput::Text("Basic !!!not-base64!!!".to_string());
    let e = verify_basic_auth(&mut store, &h).unwrap_err();
    assert_eq!(e, AuthError::MalformedAuth(MalformedKind::BadBase64));
    let h2 = basic_header(b"admin:wrongpass");
    let e2 = verify_basic_auth(&mut store, &h2).unwrap_err();
    assert_eq!(e2, AuthError::InvalidCredentials);
    assert_ne!(e, e2);
}

#[test]
fn basic_auth_header_shapes_each_refused_distinctly() {
    let mut store = SessionStore::new();
    assert_eq!(
        verify_basic_auth(&mut store, &HeaderInput::Missing).unwrap_err(),
        AuthError::MalformedAuth(MalformedKind::MissingHeader)
    );
    assert_eq!(
        verify_basic_auth(&mut store, &HeaderInput::NotText).unwrap_err(),
        AuthError::MalformedAuth(MalformedKind::HeaderNotText)
    );
    assert_eq!(
        verify_basic_auth(&mut store, &HeaderInput::Text("Bearer abc".to_string())).unwrap_err(),
        AuthError::MalformedAuth(MalformedKind::NotBasic)
    );
    let bad_utf8 = basic_header(&[0xc3, 0x28]);
    assert_eq!(
        verify_basic_auth(&mut store, &bad_utf8).unwrap_err(),
        AuthError::MalformedAuth(MalformedKind::BadUtf8)
    );
    let no_colon = basic_header(b"adminadmin123");
    assert_eq!(
        verify_basic_auth(&mut store, &no_colon).unwrap_err(),
        AuthError::MalformedAuth(MalformedKind::NoSeparator)
    );
}

#[test]
fn error_messages_are_the_reported_reason_strings() {
    assert_eq!(
        AuthError::MalformedAuth(MalformedKind::MissingHeader).message(),
        "No authorization header"
    );
    assert_eq!(
        AuthError::MalformedAuth(MalformedKind::HeaderNotText).message(),
        "Invalid authorization header"
    );
    assert_eq!(
        AuthError::MalformedAuth(MalformedKind::NotBasic).message(),
        "Invalid authorization type"
    );
    assert_eq!(
        AuthError::MalformedAuth(MalformedKind::BadBase64).message(),
        "Failed to decode credentials"
    );
    assert_eq!(
        AuthError::MalformedAuth(MalformedKind::BadUtf8).message(),
        "Invalid UTF-8 in credentials"
    );
    assert_eq!(
        AuthError::MalformedAuth(MalformedKind::NoSeparator).message(),
        "Invalid credentials format"
    );
    assert_eq!(AuthError::InvalidCredentials.message(), "Invalid credentials");
    assert_eq!(AuthError::SessionNotFound.message(), "Session not found");
}

#[test]
fn logout_removes_the_named_session() {
    let mut store = SessionStore::new();
    let sess = authenticate(&mut store, "admin", "admin123").expect("login");
    let id = sess.id.clone();
    assert_eq!(logout(&mut store, &HeaderInput::Text(id.clone())), Some(true));
    assert!(!store.contains(id.as_str()));
    assert_eq!(logout(&mut store, &HeaderInput::Text(id)), Some(false));
    assert_eq!(logout(&mut store, &HeaderInput::Missing), None);
    assert_eq!(logout(&mut store, &HeaderInput::NotText), None);
}

#[test]
fn empty_username_or_password_is_still_a_credential_rejection() {
    let mut store = SessionStore::new();
    let h = basic_header(b":admin123");
    assert_eq!(verify_basic_auth(&mut store, &h).unwrap_err(), AuthError::InvalidCredentials);
    let h2 = basic_header(b"admin:");
    assert_eq!(verify_basic_auth(&mut store, &h2).unwrap_err(), AuthError::InvalidCredentials);
}

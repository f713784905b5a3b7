use vstd::prelude::*;

use crate::session::{SessionInfo, SessionStore};
use crate::strutil::{find_char, starts_with_str, str_eq};
use vstd::seq_lib::*;
use vstd::string::StrSliceExecFns;
use vstd::utf8::{decode_utf8, valid_utf8};

verus! {

/// The inbound form of a credential-bearing header, as handed over by the
/// HTTP layer: absent, present but not text, or its text.
pub enum HeaderInput {
    Missing,
    NotText,
    Text(String),
}

/// The ways a Basic-auth header can be malformed, each distinct from a
/// well-formed header that carries wrong credentials.
#[derive(Clone, Copy, Debug, PartialEq, Eq, Structural)]
pub enum MalformedKind {
    /// No authorization header was sent.
    MissingHeader,
    /// The header value was not text.
    HeaderNotText,
    /// The header does not use the Basic scheme.
    NotBasic,
    /// The part after the scheme is not valid base64.
    BadBase64,
    /// The decoded credentials are not valid UTF-8.
    BadUtf8,
    /// The decoded credentials hold no `:` separator.
    NoSeparator,
}

/// Why a request was refused by the credential authority.
#[derive(Clone, Copy, Debug, PartialEq, Eq, Structural)]
pub enum AuthError {
    /// The request's credential proof had the wrong shape.
    MalformedAuth(MalformedKind),
    /// The credential proof was well-formed but the credentials are wrong.
    InvalidCredentials,
    /// The presented session token names no live session.
    SessionNotFound,
}

/// A freshly minted session: its opaque id and its record in the store.
#[derive(Debug)]
pub struct Session {
    pub id: String,
    pub info: SessionInfo,
}

/// A login payload: a username and password pair.
pub struct LoginRequest {
    pub username: String,
    pub password: String,
}

/// The response envelope of the login route.
pub struct AuthResponse {
    pub success: bool,
    pub session_id: Option<String>,
    pub username: Option<String>,
    pub error: Option<String>,
}

/// The one identity this design accepts. A production deployment replaces
/// this with a pluggable verifier; the contract below is stated over this
/// predicate so only this line would change.
pub open spec fn valid_credentials(username: Seq<char>, password: Seq<char>) -> bool {
    username == "admin"@ && password == "admin123"@
}

/// What standard (padded, `+/`-alphabet) base64 decoding returns on the given
/// text: `None` exactly when the engine rejects it.
pub uninterp spec fn base64_decode_of(s: Seq<char>) -> Option<Seq<u8>>;

/// Relies on base64's `Engine::decode` with the `general_purpose::STANDARD`
/// engine: the result is a function of the input text alone, and decoding
/// fails exactly on the inputs that engine rejects.
#[verifier::external_body]
fn b64_decode(s: &str) -> (r: Option<Vec<u8>>)
    ensures
        r is Some <==> base64_decode_of(s@) is Some,
        r matches Some(v) ==> base64_decode_of(s@) == Some(v@),
{
    base64::Engine::decode(&base64::engine::general_purpose::STANDARD, s).ok()
}

/// Relies on std's `String::from_utf8`: it succeeds on exactly the valid
/// UTF-8 byte sequences and returns their decoding, as vstd's UTF-8 model
/// states both.
#[verifier::external_body]
fn utf8_to_string(v: Vec<u8>) -> (r: Option<String>)
    ensures
        r is Some <==> valid_utf8(v@),
        r matches Some(s) ==> s@ == decode_utf8(v@),
{
    String::from_utf8(v).ok()
}

/// Relies on uuid's `Uuid::new_v4` and its hyphenated display form: a freshly
/// drawn random (version 4) UUID as text. The draw is random, so nothing is
/// assumed of the value.
#[verifier::external_body]
pub(crate) fn new_token() -> (r: String) {
    uuid::Uuid::new_v4().to_string()
}

/// Relies on chrono's `Utc::now`: the current Unix timestamp in seconds.
/// The clock decides the value, so nothing is assumed of it.
#[verifier::external_body]
pub(crate) fn now_timestamp() -> (r: i64) {
    chrono::Utc::now().timestamp()
}

/// The step at which a Basic-auth header is found malformed, if any.
pub open spec fn basic_malformed(h: HeaderInput) -> Option<MalformedKind> {
    match h {
        HeaderInput::Missing => Some(MalformedKind::MissingHeader),
        HeaderInput::NotText => Some(MalformedKind::HeaderNotText),
        HeaderInput::Text(s) => {
            let t = s@;
            if !(t.len() >= 6 && t.subrange(0, 6) == "Basic "@) {
                Some(MalformedKind::NotBasic)
            } else {
                match base64_decode_of(t.subrange(6, t.len() as int)) {
                    Option::None => Some(MalformedKind::BadBase64),
                    Option::Some(bytes) => {
                        if !valid_utf8(bytes) {
                            Some(MalformedKind::BadUtf8)
                        } else if decode_utf8(bytes).index_of_first(':') is None {
                            Some(MalformedKind::NoSeparator)
                        } else {
                            None
                        }
                    },
                }
            }
        },
    }
}

/// The decoded credential text of a well-formed Basic-auth header.
pub open spec fn basic_credential_text(h: HeaderInput) -> Seq<char> {
    match h {
        HeaderInput::Text(s) => {
            let t = s@;
            match base64_decode_of(t.subrange(6, t.len() as int)) {
                Option::Some(bytes) => decode_utf8(bytes),
                Option::None => Seq::empty(),
            }
        },
        _ => Seq::empty(),
    }
}

/// The username of a well-formed Basic-auth header: the credential text up to
/// the first `:`.
pub open spec fn basic_username(h: HeaderInput) -> Seq<char> {
    let creds = basic_credential_text(h);
    match creds.index_of_first(':') {
        Option::Some(i) => creds.subrange(0, i),
        Option::None => Seq::empty(),
    }
}

/// The password of a well-formed Basic-auth header: the credential text after
/// the first `:`.
pub open spec fn basic_password(h: HeaderInput) -> Seq<char> {
    let creds = basic_credential_text(h);
    match creds.index_of_first(':') {
        Option::Some(i) => creds.subrange(i + 1, creds.len() as int),
        Option::None => Seq::empty(),
    }
}

/// The session map `post` extends `pre` by exactly one freshly minted record
/// under `id`: the given username, and equal creation and activity times.
pub open spec fn minted_session(
    pre: Map<Seq<char>, SessionInfo>,
    post: Map<Seq<char>, SessionInfo>,
    id: Seq<char>,
    username: Seq<char>,
) -> bool {
    &&& post.contains_key(id)
    &&& post == pre.insert(id, post[id])
    &&& post[id].username@ == username
    &&& post[id].created_at == post[id].last_activity
}

impl AuthError {
    /// The reason string of each refusal, exactly as the HTTP layer reports it.
    pub open spec fn message_of(self) -> Seq<char> {
        match self {
            AuthError::MalformedAuth(MalformedKind::MissingHeader) => "No authorization header"@,
            AuthError::MalformedAuth(MalformedKind::HeaderNotText) => "Invalid authorization header"@,
            AuthError::MalformedAuth(MalformedKind::NotBasic) => "Invalid authorization type"@,
            AuthError::MalformedAuth(MalformedKind::BadBase64) => "Failed to decode credentials"@,
            AuthError::MalformedAuth(MalformedKind::BadUtf8) => "Invalid UTF-8 in credentials"@,
            AuthError::MalformedAuth(MalformedKind::NoSeparator) => "Invalid credentials format"@,
            AuthError::InvalidCredentials => "Invalid credentials"@,
            AuthError::SessionNotFound => "Session not found"@,
        }
    }

    /// The reason string, for the response body.
    pub fn message(&self) -> (r: String)
        ensures
            r@ == self.message_of(),
    {
        match self {
            AuthError::MalformedAuth(MalformedKind::MissingHeader) => "No authorization header".to_owned(),
            AuthError::MalformedAuth(MalformedKind::HeaderNotText) => "Invalid authorization header".to_owned(),
            AuthError::MalformedAuth(MalformedKind::NotBasic) => "Invalid authorization type".to_owned(),
            AuthError::MalformedAuth(MalformedKind::BadBase64) => "Failed to decode credentials".to_owned(),
            AuthError::MalformedAuth(MalformedKind::BadUtf8) => "Invalid UTF-8 in credentials".to_owned(),
            AuthError::MalformedAuth(MalformedKind::NoSeparator) => "Invalid credentials format".to_owned(),
            AuthError::InvalidCredentials => "Invalid credentials".to_owned(),
            AuthError::SessionNotFound => "Session not found".to_owned(),
        }
    }
}

/// Checks a username and password pair and, when it is the accepted identity,
/// mints a session: a generated, never client-supplied id, timestamps set to
/// the current time, and the record inserted into the store.
pub fn authenticate(store: &mut SessionStore, username: &str, password: &str) -> (r: Result<
    Session,
    AuthError,
>)
    requires
        old(store).wf(),
    ensures
        final(store).wf(),
        r is Ok <==> valid_credentials(username@, password@),
        match r {
            Ok(sess) => {
                &&& sess.info.username@ == username@
                &&& sess.info.created_at == sess.info.last_activity
                &&& final(store)@ == old(store)@.insert(sess.id@, sess.info)
            },
            Err(e) => e == AuthError::InvalidCredentials && final(store)@ == old(store)@,
        },
{
    if str_eq(username, "admin") && str_eq(password, "admin123") {
        let id = new_token();
        let now = now_timestamp();
        let info = SessionInfo { username: username.to_owned(), created_at: now, last_activity: now };
        let stored = info.clone();
        store.insert(id.clone(), stored);
        Ok(Session { id, info })
    } else {
        Err(AuthError::InvalidCredentials)
    }
}

/// Validates a decoded `username:password` pair carried by a Basic-auth
/// header and mints a session on success. Each malformed shape is refused
/// with its own reason, distinct from a credential rejection; the store is
/// untouched unless a session is minted.
pub fn verify_basic_auth(store: &mut SessionStore, header: &HeaderInput) -> (r: Result<
    String,
    AuthError,
>)
    requires
        old(store).wf(),
    ensures
        final(store).wf(),
        match basic_malformed(*header) {
            Some(kind) => r == Err::<String, AuthError>(AuthError::MalformedAuth(kind))
                && final(store)@ == old(store)@,
            None => {
                if valid_credentials(basic_username(*header), basic_password(*header)) {
                    &&& r is Ok
                    &&& minted_session(
                        old(store)@,
                        final(store)@,
                        r->Ok_0@,
                        basic_username(*header),
                    )
                } else {
                    r == Err::<String, AuthError>(AuthError::InvalidCredentials) && final(store)@
                        == old(store)@
                }
            },
        },
{
    proof {
        reveal_strlit("Basic ");
    }
    match header {
        HeaderInput::Missing => Err(AuthError::MalformedAuth(MalformedKind::MissingHeader)),
        HeaderInput::NotText => Err(AuthError::MalformedAuth(MalformedKind::HeaderNotText)),
        HeaderInput::Text(s) => {
            let sref = s.as_str();
            if !starts_with_str(sref, "Basic ") {
                return Err(AuthError::MalformedAuth(MalformedKind::NotBasic));
            }
            let encoded = sref.substring_char(6, sref.unicode_len());
            match b64_decode(encoded) {
                None => Err(AuthError::MalformedAuth(MalformedKind::BadBase64)),
                Some(bytes) => {
                    let ghost gbytes = bytes@;
                    match utf8_to_string(bytes) {
                        None => Err(AuthError::MalformedAuth(MalformedKind::BadUtf8)),
                        Some(creds) => {
                            let cref = creds.as_str();
                            match find_char(cref, ':') {
                                None => {
                                    proof {
                                        assert(!creds@.contains(':')) by {
                                            assert(forall|j: int|
                                                0 <= j < creds@.len() ==> creds@[j] != ':');
                                        }
                                        creds@.index_of_first_ensures(':');
                                    }
                                    Err(AuthError::MalformedAuth(MalformedKind::NoSeparator))
                                },
                                Some(i) => {
                                    proof {
                                        assert(creds@.contains(':')) by {
                                            assert(creds@[i as int] == ':');
                                        }
                                        creds@.index_of_first_ensures(':');
                                        let idx = creds@.index_of_first(':')->Some_0;
                                        assert(idx == i as int) by {
                                            assert(creds@[idx] == ':');
                                            assert(creds@[i as int] == ':');
                                            if idx < i as int {
                                                assert(creds@[idx] != ':');
                                            }
                                            if (i as int) < idx {
                                                assert(creds@[i as int] != ':');
                                            }
                                        }
                                    }
                                    let clen = cref.unicode_len();
                                    assert(i < clen);
                                    let username = cref.substring_char(0, i);
                                    let password = cref.substring_char(i + 1, clen);
                                    match authenticate(store, username, password) {
                                        Ok(sess) => Ok(sess.id),
                                        Err(e) => Err(e),
                                    }
                                },
                            }
                        },
                    }
                },
            }
        },
    }
}

/// Handles a login payload: authenticates and shapes the auth response
/// envelope, with the session id and username on success and the exact
/// credential-rejection reason otherwise.
pub fn login(store: &mut SessionStore, req: &LoginRequest) -> (r: AuthResponse)
    requires
        old(store).wf(),
    ensures
        final(store).wf(),
        r.success == valid_credentials(req.username@, req.password@),
        r.success ==> {
            &&& r.session_id is Some
            &&& r.username matches Some(u) && u@ == req.username@
            &&& r.error is None
            &&& minted_session(old(store)@, final(store)@, r.session_id->Some_0@, req.username@)
        },
        !r.success ==> {
            &&& r.session_id is None
            &&& r.username is None
            &&& r.error matches Some(e) && e@ == "Invalid credentials"@
            &&& final(store)@ == old(store)@
        },
{
    match authenticate(store, req.username.as_str(), req.password.as_str()) {
        Ok(sess) => AuthResponse {
            success: true,
            session_id: Some(sess.id),
            username: Some(sess.info.username),
            error: None,
        },
        Err(_) => AuthResponse {
            success: false,
            session_id: None,
            username: None,
            error: Some("Invalid credentials".to_owned()),
        },
    }
}

/// Looks a session token up; the token of a revoked or never-minted session
/// is refused as not found. The store is unchanged.
pub fn authorize(store: &SessionStore, token: &str) -> (r: Result<SessionInfo, AuthError>)
    requires
        store.wf(),
    ensures
        r is Ok <==> store@.contains_key(token@),
        match r {
            Ok(info) => info == store@[token@],
            Err(e) => e == AuthError::SessionNotFound,
        },
{
    match store.lookup(token) {
        Some(info) => Ok(info),
        None => Err(AuthError::SessionNotFound),
    }
}

/// Removes the session the token names, saying whether one was live; the
/// logout of an unknown token is not an error, but reports `false`.
pub fn revoke(store: &mut SessionStore, token: &str) -> (r: bool)
    requires
        old(store).wf(),
    ensures
        final(store).wf(),
        final(store)@ == old(store)@.remove(token@),
        r == old(store)@.contains_key(token@),
{
    store.remove(token)
}

/// Handles a logout request: the session-id header must be present text;
/// the named session, if live, is removed. `None` reports the invalid
/// header shape; `Some` carries whether a session was actually removed.
pub fn logout(store: &mut SessionStore, session_header: &HeaderInput) -> (r: Option<bool>)
    requires
        old(store).wf(),
    ensures
        final(store).wf(),
        match *session_header {
            HeaderInput::Text(s) => r == Some(old(store)@.contains_key(s@)) && final(store)@
                == old(store)@.remove(s@),
            _ => r is None && final(store)@ == old(store)@,
        },
{
    match session_header {
        HeaderInput::Text(s) => Some(store.remove(s.as_str())),
        _ => None,
    }
}

/// A session's token no longer names a session once it is revoked: after the
/// store drops a token, a lookup of that token cannot succeed, so authorizing
/// with it reports the session as not found.
pub proof fn lemma_revoked_token_not_found(
    sessions: Map<Seq<char>, SessionInfo>,
    token: Seq<char>,
)
    ensures
        !sessions.remove(token).contains_key(token),
{
}

/// A header whose base64 payload does not decode is refused as malformed —
/// `BadBase64` — which is a different refusal from `InvalidCredentials`, the
/// one for a header that decodes to wrong credentials.
pub proof fn lemma_bad_base64_is_malformed(s: String)
    requires
        s@.len() >= 6,
        s@.subrange(0, 6) == "Basic "@,
        base64_decode_of(s@.subrange(6, s@.len() as int)) is None,
    ensures
        basic_malformed(HeaderInput::Text(s)) == Some(MalformedKind::BadBase64),
        basic_malformed(HeaderInput::Text(s)) != Some(MalformedKind::NoSeparator),
{
}

} // verus!

//! The session lifecycle.
//!
//! A successful login mints an opaque random token, stores `token ->
//! entity id` in the cache with no expiration, and hands the shell a
//! cookie descriptor (Secure, HttpOnly, scoped path, no explicit max-age).
//! An inbound token is looked up in the cache; an unknown token is an
//! invalid session, decided before the record store is ever consulted.

use vstd::prelude::*;
use vstd::string::StringExecFns;

use crate::api_response::ApiError;
use crate::iam::AuthenticatableEntity;
use crate::iam::AuthenticatedSession;
use crate::iam::EntityView;
use crate::iam::bcrypt_verifies;
use crate::iam::verify_password;
use crate::resolver;

verus! {

/// The cache key a session token is stored under: `session:{token}`.
pub open spec fn session_cache_key(token: Seq<char>) -> Seq<char> {
    "session:"@ + token
}

/// Builds the session cache key for `token`.
pub fn session_cache_key_string(token: &str) -> (r: String)
    ensures
        r@ == session_cache_key(token@),
{
    let mut s = String::from_str("session:");
    s.append(token);
    s
}

/// Relies on uuid::Uuid::new_v4, formatted: a fresh random token in the
/// 36-character hyphenated form.  Random, so nothing relates two calls.
#[verifier::external_body]
pub(crate) fn mint_token() -> (r: String)
    ensures
        r@.len() == 36,
{
    uuid::Uuid::new_v4().to_string()
}

/// What the cache answered when a session key was read.
pub enum SessionReadEvent {
    /// The cache could not be reached at all.
    ConnFailed,
    /// The cache holds nothing under the key: the token is unknown.
    Miss,
    /// The stored entity id.
    Found { entity_id: String },
}

/// Decides a token lookup from the cache's answer: an unknown token is an
/// invalid session; a connection failure is CacheUnavailable; a stored id
/// moves on to the cache-aside resolver (without force-reload).
pub fn session_lookup_decide(event: SessionReadEvent) -> (r: Result<String, ApiError>)
    ensures
        event matches SessionReadEvent::Found { entity_id } ==> (r matches Ok(id) && id@
            == entity_id@),
        event is Miss ==> (r matches Err(e) && e == ApiError::InvalidSession),
        event is ConnFailed ==> (r matches Err(e) && e == ApiError::CacheUnavailable),
{
    match event {
        SessionReadEvent::Found { entity_id } => Ok(entity_id),
        SessionReadEvent::Miss => Err(ApiError::InvalidSession),
        SessionReadEvent::ConnFailed => Err(ApiError::CacheUnavailable),
    }
}

/// A cookie as the shell must set it.
pub struct CookieDescriptor {
    pub name: String,
    pub value: String,
    pub secure: bool,
    pub http_only: bool,
    pub path: String,
}

/// The mathematical value of a cookie descriptor.
#[verifier::ext_equal]
pub struct CookieDescriptorV {
    pub name: Seq<char>,
    pub value: Seq<char>,
    pub secure: bool,
    pub http_only: bool,
    pub path: Seq<char>,
}

impl View for CookieDescriptor {
    type V = CookieDescriptorV;

    open spec fn view(&self) -> CookieDescriptorV {
        CookieDescriptorV {
            name: self.name@,
            value: self.value@,
            secure: self.secure,
            http_only: self.http_only,
            path: self.path@,
        }
    }
}

/// The cookie that carries `token`: named nys-session, Secure, HttpOnly,
/// scoped to /v1, with no explicit max-age.
pub open spec fn session_cookie(token: Seq<char>) -> CookieDescriptorV {
    CookieDescriptorV {
        name: "nys-session"@,
        value: token,
        secure: true,
        http_only: true,
        path: "/v1"@,
    }
}

/// The next step of session creation once the entity is resolved.
pub enum CreateSessionStep {
    /// Session creation failed; nothing is written to the cache.
    Fail { error: ApiError },
    /// Store the session's entity id under `key` in the cache, then call
    /// `create_session_finish`.
    StoreSession { key: String, session: AuthenticatedSession },
}

/// Decides session creation from the resolver's outcome: a resolver error
/// propagates unchanged; a password that does not verify against the
/// stored hash — or a fault of the verifying mechanism — fails as
/// AuthenticationFailed, and nothing is written anywhere; otherwise a
/// fresh random token is minted and the `token -> entity id` mapping is
/// sent to the cache.
pub fn create_session_decide(
    resolved: Result<AuthenticatableEntity, ApiError>,
    password: &str,
) -> (r: CreateSessionStep)
    ensures
        resolved matches Err(e) ==> (r matches CreateSessionStep::Fail { error } && error == e),
        resolved is Ok && bcrypt_verifies(password@, resolved->Ok_0@.password_hash) != Some(true)
            ==> (r matches CreateSessionStep::Fail { error } && error
            == ApiError::AuthenticationFailed),
        resolved is Ok && bcrypt_verifies(password@, resolved->Ok_0@.password_hash) == Some(true)
            ==> (r matches CreateSessionStep::StoreSession { key, session } && session@.entity_id
            == resolved->Ok_0@.id && key@ == session_cache_key(session@.id) && session@.id.len()
            == 36),
{
    match resolved {
        Err(e) => CreateSessionStep::Fail { error: e },
        Ok(entity) => {
            let ok = verify_password(password, entity.password_hash().as_str());
            match ok {
                Some(true) => {
                    let token = mint_token();
                    let key = session_cache_key_string(token.as_str());
                    let session = AuthenticatedSession::new(token, entity.into_id());
                    CreateSessionStep::StoreSession { key, session }
                },
                _ => CreateSessionStep::Fail { error: ApiError::AuthenticationFailed },
            }
        },
    }
}

/// Finishes session creation after the cache write: on success, the token
/// and its cookie descriptor; a failed or unreachable cache is
/// CacheUnavailable.
pub fn create_session_finish(session: AuthenticatedSession, written: bool) -> (r: Result<
    (String, CookieDescriptor),
    ApiError,
>)
    ensures
        written ==> (r matches Ok(p) && p.0@ == session@.id && p.1@ == session_cookie(
            session@.id,
        )),
        !written ==> (r matches Err(e) && e == ApiError::CacheUnavailable),
{
    if written {
        let token = session.id().clone();
        let cookie_value = token.clone();
        let cookie = CookieDescriptor {
            name: String::from_str("nys-session"),
            value: cookie_value,
            secure: true,
            http_only: true,
            path: String::from_str("/v1"),
        };
        proof {
            assert(cookie@ =~= session_cookie(session@.id));
        }
        Ok((token, cookie))
    } else {
        Err(ApiError::CacheUnavailable)
    }
}

/// The outcome of resolving a session token against fault-free stores: the
/// session map is consulted first, then the cache-aside resolver; every
/// underlying failure propagates unchanged.
pub open spec fn token_run(
    sessions: Map<Seq<char>, Seq<char>>,
    cache: Map<Seq<char>, EntityView>,
    store: Seq<EntityView>,
    token: Seq<char>,
) -> (Result<EntityView, ApiError>, Map<Seq<char>, EntityView>, bool) {
    let key = session_cache_key(token);
    if sessions.contains_key(key) {
        resolver::resolve_run(cache, store, sessions[key], false)
    } else {
        (Err(ApiError::InvalidSession), cache, false)
    }
}

/// An unknown token is rejected as InvalidSession before the record store
/// is ever consulted, and the cache is untouched.
pub proof fn lemma_unknown_token_invalid_session(
    sessions: Map<Seq<char>, Seq<char>>,
    cache: Map<Seq<char>, EntityView>,
    store: Seq<EntityView>,
    token: Seq<char>,
)
    requires
        !sessions.contains_key(session_cache_key(token)),
    ensures
        token_run(sessions, cache, store, token) == (
            Err::<EntityView, ApiError>(ApiError::InvalidSession),
            cache,
            false,
        ),
{
}

} // verus!

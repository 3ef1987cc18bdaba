//! Authenticatable entities and their credentials.
//!
//! An entity is created at registration and read-only thereafter: an id, a
//! salted credential hash, an enabled flag and an ordered list of granted
//! capability patterns.  The privilege check and the credential check live
//! here; the stores that persist and cache entities are driven elsewhere.

use vstd::prelude::*;
use vstd::string::StringExecFns;

use crate::api_response::ApiError;
use crate::capability;
use crate::capability::CapabilityString;

verus! {

/// Work factor of the credential hash.
pub const BCRYPT_COST: u32 = 10;

/// The ordered granted patterns of an entity.
#[derive(Clone, Debug)]
pub struct PermissionsDefinition {
    permissions: Vec<String>,
}

impl View for PermissionsDefinition {
    type V = Seq<Seq<char>>;

    closed spec fn view(&self) -> Seq<Seq<char>> {
        self.permissions.deep_view()
    }
}

impl PermissionsDefinition {
    /// The granted patterns, in stored order.
    pub fn granted_patterns(&self) -> (r: &Vec<String>)
        ensures
            r.deep_view() == self@,
    {
        &self.permissions
    }
}

/// The mathematical value of an entity: its id, credential hash, enabled
/// flag and granted patterns, as sequences of characters.
pub struct EntityView {
    pub id: Seq<char>,
    pub password_hash: Seq<char>,
    pub enabled: bool,
    pub permissions: Seq<Seq<char>>,
}

/// An entity that can authenticate and hold privileges.  Created at
/// registration; read-only thereafter; cached by id.
#[derive(Clone, Debug)]
pub struct AuthenticatableEntity {
    pub id: String,
    password_hash: String,
    enabled: bool,
    permissions: PermissionsDefinition,
}

impl View for AuthenticatableEntity {
    type V = EntityView;

    closed spec fn view(&self) -> EntityView {
        EntityView {
            id: self.id@,
            password_hash: self.password_hash@,
            enabled: self.enabled,
            permissions: self.permissions@,
        }
    }
}

impl DeepView for AuthenticatableEntity {
    type V = EntityView;

    open spec fn deep_view(&self) -> EntityView {
        self.view()
    }
}

/// The single self-scoped pattern granted at registration:
/// `nys:*:{id}:*:*`, full access within the entity's own scope.
pub open spec fn base_permission(id: Seq<char>) -> Seq<char> {
    "nys:*:"@ + id + ":*:*"@
}

/// Builds the base permission text for `id`.
pub fn base_permission_string(id: &str) -> (r: String)
    ensures
        r@ == base_permission(id@),
{
    let mut s = String::from_str("nys:*:");
    s.append(id);
    s.append(":*:*");
    s
}

/// Relies on bcrypt::hash: a salted one-way hash of the password at the
/// given work factor.  The salt is drawn at random, so nothing relates two
/// calls; a fault of the mechanism is reported as None.  Whatever salt was
/// drawn, the produced text is the fixed 60-character hash form, and
/// bcrypt::verify re-reads cost and salt out of that text and recomputes,
/// so a returned hash always verifies the password it was made from.
#[verifier::external_body]
pub(crate) fn hash_password(password: &str, cost: u32) -> (r: Option<String>)
    ensures
        r matches Some(h) ==> bcrypt_verifies(password@, h@) == Some(true) && h@.len() == 60,
{
    bcrypt::hash(password, cost).ok()
}

/// Whether bcrypt accepts `password` against the stored `hash`: it reads
/// cost and salt out of the hash text and recomputes, so the outcome is a
/// function of the two texts alone.  None stands for a fault of the
/// mechanism (a malformed hash), distinct from a plain mismatch.
pub uninterp spec fn bcrypt_verifies(password: Seq<char>, hash: Seq<char>) -> Option<bool>;

/// Relies on bcrypt::verify: deterministic in the password and the hash.
#[verifier::external_body]
pub(crate) fn verify_password(password: &str, hash: &str) -> (r: Option<bool>)
    ensures
        r == bcrypt_verifies(password@, hash@),
{
    bcrypt::verify(password, hash).ok()
}

impl AuthenticatableEntity {
    /// Builds an entity from its id and an already-computed credential
    /// hash: enabled, with the single self-scoped granted pattern for `id`.
    pub fn with_password_hash(id: String, password_hash: String) -> (e: AuthenticatableEntity)
        ensures
            e@.id == id@,
            e@.password_hash == password_hash@,
            e@.enabled == true,
            e@.permissions == seq![base_permission(id@)],
    {
        let base = base_permission_string(id.as_str());
        let mut permissions: Vec<String> = Vec::new();
        permissions.push(base);
        let e = AuthenticatableEntity {
            id,
            password_hash,
            enabled: true,
            permissions: PermissionsDefinition { permissions },
        };
        proof {
            assert(e@.permissions =~= seq![base_permission(e@.id)]);
        }
        e
    }

    /// Rebuilds an entity from its stored parts, as a store hands them
    /// back.
    pub fn from_parts(
        id: String,
        password_hash: String,
        enabled: bool,
        permissions: Vec<String>,
    ) -> (e: AuthenticatableEntity)
        ensures
            e@.id == id@,
            e@.password_hash == password_hash@,
            e@.enabled == enabled,
            e@.permissions == permissions.deep_view(),
    {
        AuthenticatableEntity {
            id,
            password_hash,
            enabled,
            permissions: PermissionsDefinition { permissions },
        }
    }

    /// Registers a fresh entity: hashes the password at the standard work
    /// factor and grants the single self-scoped pattern.  None only when
    /// the hashing mechanism itself fails.  The stored hash verifies the
    /// registration password, so a created entity can always log in with
    /// it.
    pub fn new(id: String, password: String) -> (r: Option<AuthenticatableEntity>)
        ensures
            r matches Some(e) ==> (e@.id == id@ && e@.enabled == true && e@.permissions == seq![
                base_permission(id@),
            ] && bcrypt_verifies(password@, e@.password_hash) == Some(true)
                && e@.password_hash.len() == 60),
    {
        match hash_password(password.as_str(), BCRYPT_COST) {
            Some(h) => Some(Self::with_password_hash(id, h)),
            None => None,
        }
    }

    /// Whether any granted pattern authorizes the requested capability
    /// text: the text must itself be a valid five-segment capability, the
    /// patterns are tried in stored order, and the first success wins.
    pub fn assert_privilege(&self, privilege: String) -> (r: Result<(), ApiError>)
        ensures
            capability::split_term(privilege@).len() != 5 ==> (r matches Err(e) && e
                == ApiError::MalformedCapability),
            capability::split_term(privilege@).len() == 5 && capability::authorize_spec(
                capability::split_term(privilege@),
                self@.permissions,
            ) ==> r is Ok,
            capability::split_term(privilege@).len() == 5 && !capability::authorize_spec(
                capability::split_term(privilege@),
                self@.permissions,
            ) ==> (r matches Err(e) && e == ApiError::NoMatchingPrivilege),
    {
        let requested = match CapabilityString::parse(privilege.as_str()) {
            Ok(c) => c,
            Err(e) => {
                return Err(e);
            },
        };
        if capability::authorize(&requested, &self.permissions.permissions) {
            Ok(())
        } else {
            Err(ApiError::NoMatchingPrivilege)
        }
    }

    /// The entity's id, surrendered.
    pub fn into_id(self) -> (r: String)
        ensures
            r@ == self@.id,
    {
        self.id
    }

    /// The stored credential hash.
    pub fn password_hash(&self) -> (r: &String)
        ensures
            r@ == self@.password_hash,
    {
        &self.password_hash
    }

    /// Whether the entity is enabled.  Stored, and today consulted nowhere
    /// in the authorization path.
    pub fn enabled(&self) -> (r: bool)
        ensures
            r == self@.enabled,
    {
        self.enabled
    }

    /// The granted patterns, in stored order.
    pub fn granted_patterns(&self) -> (r: &Vec<String>)
        ensures
            r.deep_view() == self@.permissions,
    {
        &self.permissions.permissions
    }
}

/// A live session: an opaque token and the entity it stands for.
pub struct AuthenticatedSession {
    id: String,
    entity_id: String,
}

/// The mathematical value of a session.
pub struct SessionView {
    pub id: Seq<char>,
    pub entity_id: Seq<char>,
}

impl View for AuthenticatedSession {
    type V = SessionView;

    closed spec fn view(&self) -> SessionView {
        SessionView { id: self.id@, entity_id: self.entity_id@ }
    }
}

impl AuthenticatedSession {
    /// Pairs a freshly minted token with the entity it stands for.
    pub fn new(id: String, entity_id: String) -> (s: AuthenticatedSession)
        ensures
            s@.id == id@,
            s@.entity_id == entity_id@,
    {
        AuthenticatedSession { id, entity_id }
    }

    /// The session token.
    pub fn id(&self) -> (r: &String)
        ensures
            r@ == self@.id,
    {
        &self.id
    }

    /// The id of the entity the session stands for.
    pub fn entity_id(&self) -> (r: &String)
        ensures
            r@ == self@.entity_id,
    {
        &self.entity_id
    }
}

/// The body of a successful session-creation response.
pub struct GetSessionResponse {
    pub session_id: String,
}

/// The body of a session-creation request: an entity id and a plaintext
/// password.
pub struct GetSessionRB {
    pub id: String,
    pub password: String,
}

/// The body of a registration request: the new entity's id and plaintext
/// password.
pub struct CreateAuthenticatableEntityRB {
    pub id: String,
    pub password: String,
}

/// Maps the record store's answer to a registration result: a transport
/// failure is ServiceUnavailable, success is success.  Registration never
/// touches the cache.
pub fn register_finish(put_ok: bool) -> (r: Result<(), ApiError>)
    ensures
        put_ok ==> r is Ok,
        !put_ok ==> (r matches Err(e) && e == ApiError::ServiceUnavailable),
{
    if put_ok {
        Ok(())
    } else {
        Err(ApiError::ServiceUnavailable)
    }
}

} // verus!

//! The outward-facing error enumeration and its wire representation.
//!
//! Every failure of the identity, session and authorization core is one of
//! these kinds.  Each kind carries a stable machine-readable label, a numeric
//! code, an HTTP status and a human-readable explanation; the unverified web
//! shell turns them into response bodies.

use vstd::prelude::*;

verus! {

/// Every error the core can report.  Each is terminal for the current
/// request: no retry, no partial success, no silent downgrade.
#[derive(Clone, Copy, Debug, PartialEq, Eq, Structural)]
pub enum ApiError {
    /// The record store holds no entity with the requested id.
    EntityNotFound,
    /// The record store holds more than one entity with the requested id:
    /// an integrity violation, surfaced and never auto-resolved.
    TooManyEntities,
    /// A record-store call failed in transport.
    ServiceUnavailable,
    /// The cache store could not be reached, or a required cache write failed.
    CacheUnavailable,
    /// The presented credentials did not verify against the stored hash.
    AuthenticationFailed,
    /// The request carried no session key at all.
    MissingSessionKey,
    /// The presented session token is not known to the cache.
    InvalidSession,
    /// No granted pattern of the entity authorizes the requested capability.
    NoMatchingPrivilege,
    /// The capability text does not split into exactly five segments.
    MalformedCapability,
}

/// The stable machine-readable label of an error kind.
pub open spec fn error_message(e: ApiError) -> Seq<char> {
    match e {
        ApiError::EntityNotFound => "EntityNotFound"@,
        ApiError::TooManyEntities => "TooManyEntities"@,
        ApiError::ServiceUnavailable => "ServiceUnavailable"@,
        ApiError::CacheUnavailable => "CacheUnavailable"@,
        ApiError::AuthenticationFailed => "AuthenticationFailed"@,
        ApiError::MissingSessionKey => "MissingSessionKey"@,
        ApiError::InvalidSession => "InvalidSession"@,
        ApiError::NoMatchingPrivilege => "NoMatchingPrivilege"@,
        ApiError::MalformedCapability => "MalformedCapability"@,
    }
}

/// The numeric code of an error kind.  The two capability-related kinds
/// share one code, as the service has always reported them.
pub open spec fn error_code(e: ApiError) -> u8 {
    match e {
        ApiError::EntityNotFound => 0,
        ApiError::TooManyEntities => 1,
        ApiError::ServiceUnavailable => 2,
        ApiError::CacheUnavailable => 3,
        ApiError::AuthenticationFailed => 4,
        ApiError::MissingSessionKey => 5,
        ApiError::InvalidSession => 6,
        ApiError::NoMatchingPrivilege => 7,
        ApiError::MalformedCapability => 7,
    }
}

/// The HTTP status an error kind is reported with.
pub open spec fn error_status(e: ApiError) -> u16 {
    match e {
        ApiError::EntityNotFound => 404,
        ApiError::TooManyEntities => 500,
        ApiError::ServiceUnavailable => 503,
        ApiError::CacheUnavailable => 503,
        ApiError::AuthenticationFailed => 401,
        ApiError::MissingSessionKey => 401,
        ApiError::InvalidSession => 401,
        ApiError::NoMatchingPrivilege => 401,
        ApiError::MalformedCapability => 500,
    }
}

/// The human-readable explanation of an error kind.
pub open spec fn error_information(e: ApiError) -> Seq<char> {
    match e {
        ApiError::EntityNotFound => "The requested user could not be found."@,
        ApiError::TooManyEntities => {
            "The login request matched with more than one known entity."@
        },
        ApiError::ServiceUnavailable => "A query to the backing record store has failed."@,
        ApiError::CacheUnavailable => "Unable to connect to or query the server cache."@,
        ApiError::AuthenticationFailed => {
            "Failed to authenticate entity with the provided credentials."@
        },
        ApiError::MissingSessionKey => {
            "No session key passed as 'nys-session' cookie. Please ensure cookies are enabled and authenticate first."@
        },
        ApiError::InvalidSession => "The session key passed appears to be invalid."@,
        ApiError::NoMatchingPrivilege => {
            "The entity doesn't have the requisite permission to perform the solicited action on this resource."@
        },
        ApiError::MalformedCapability => "The permission string is malformed."@,
    }
}

impl ApiError {
    /// The stable machine-readable label.
    pub fn message(&self) -> (r: &'static str)
        ensures
            r@ == error_message(*self),
    {
        match self {
            ApiError::EntityNotFound => "EntityNotFound",
            ApiError::TooManyEntities => "TooManyEntities",
            ApiError::ServiceUnavailable => "ServiceUnavailable",
            ApiError::CacheUnavailable => "CacheUnavailable",
            ApiError::AuthenticationFailed => "AuthenticationFailed",
            ApiError::MissingSessionKey => "MissingSessionKey",
            ApiError::InvalidSession => "InvalidSession",
            ApiError::NoMatchingPrivilege => "NoMatchingPrivilege",
            ApiError::MalformedCapability => "MalformedCapability",
        }
    }

    /// The numeric code sent in the response body.
    pub fn code(&self) -> (r: u8)
        ensures
            r == error_code(*self),
    {
        match self {
            ApiError::EntityNotFound => 0,
            ApiError::TooManyEntities => 1,
            ApiError::ServiceUnavailable => 2,
            ApiError::CacheUnavailable => 3,
            ApiError::AuthenticationFailed => 4,
            ApiError::MissingSessionKey => 5,
            ApiError::InvalidSession => 6,
            ApiError::NoMatchingPrivilege => 7,
            ApiError::MalformedCapability => 7,
        }
    }

    /// The HTTP status of the response that reports this error.
    pub fn status_code(&self) -> (r: u16)
        ensures
            r == error_status(*self),
    {
        match self {
            ApiError::EntityNotFound => 404,
            ApiError::TooManyEntities => 500,
            ApiError::ServiceUnavailable => 503,
            ApiError::CacheUnavailable => 503,
            ApiError::AuthenticationFailed => 401,
            ApiError::MissingSessionKey => 401,
            ApiError::InvalidSession => 401,
            ApiError::NoMatchingPrivilege => 401,
            ApiError::MalformedCapability => 500,
        }
    }

    /// The human-readable explanation sent beside the label.
    pub fn additional_information(&self) -> (r: &'static str)
        ensures
            r@ == error_information(*self),
    {
        match self {
            ApiError::EntityNotFound => "The requested user could not be found.",
            ApiError::TooManyEntities => {
                "The login request matched with more than one known entity."
            },
            ApiError::ServiceUnavailable => "A query to the backing record store has failed.",
            ApiError::CacheUnavailable => "Unable to connect to or query the server cache.",
            ApiError::AuthenticationFailed => {
                "Failed to authenticate entity with the provided credentials."
            },
            ApiError::MissingSessionKey => {
                "No session key passed as 'nys-session' cookie. Please ensure cookies are enabled and authenticate first."
            },
            ApiError::InvalidSession => "The session key passed appears to be invalid.",
            ApiError::NoMatchingPrivilege => {
                "The entity doesn't have the requisite permission to perform the solicited action on this resource."
            },
            ApiError::MalformedCapability => "The permission string is malformed.",
        }
    }
}

} // verus!

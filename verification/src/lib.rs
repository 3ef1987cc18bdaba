//! Identity, session and capability-authorization core of a multi-tenant
//! task-tracking service.
//!
//! The crate verifies the privilege-matching engine (wildcard patterns over
//! five-segment capability strings), the cache-aside identity resolver, the
//! session lifecycle and the credential checks.  Network stores (the record
//! store and the key-value cache) are driven by an unverified shell through
//! explicit action/event exchanges, so every decision taken on their results
//! is proved here.

pub mod api_response;
pub mod capability;
pub mod db;
pub mod iam;
pub mod resolver;
pub mod session;
pub mod tasker;

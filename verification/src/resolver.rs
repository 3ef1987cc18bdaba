//! The cache-aside identity resolver.
//!
//! Resolving an entity id is a short protocol against the two external
//! stores: read the cache (unless a force-reload is asked for), on a miss
//! query the record store, and on exactly one record write it back to the
//! cache before returning it.  The stores live behind a network, so the
//! protocol is a state machine: each step takes the store's answer as an
//! event and decides the next action.  An unverified shell performs the
//! actions; every decision is proved here.
//!
//! A spec-level interpreter drives the same transitions against fault-free
//! store models, and the cache-aside laws — a warm cache is never bypassed
//! nor re-queried, a cold cache is filled exactly once — are proved of it.

use vstd::prelude::*;
use vstd::string::StringExecFns;

use crate::api_response::ApiError;
use crate::iam::AuthenticatableEntity;
use crate::iam::EntityView;

verus! {

/// The cache key a resolved entity is cached under: `entity:{id}`.
pub open spec fn entity_cache_key(id: Seq<char>) -> Seq<char> {
    "entity:"@ + id
}

/// Builds the cache key for `id`.
pub fn entity_cache_key_string(id: &str) -> (r: String)
    ensures
        r@ == entity_cache_key(id@),
{
    let mut s = String::from_str("entity:");
    s.append(id);
    s
}

/// Where the resolver stands between two store interactions.
pub enum ResolverState {
    /// The cache has been asked for the entity under its key.
    AwaitingCacheRead { id: String },
    /// The record store has been queried by id.
    AwaitingQuery { id: String },
    /// The single queried record is being written back to the cache.
    AwaitingCacheWrite { entity: AuthenticatableEntity },
    /// The protocol is over; the last action carried the result.
    Finished,
}

/// What the shell must do next.  For `WriteCache`, the value to write is
/// the single record the shell itself handed over in the query event.
pub enum ResolveAction {
    ReadCache { key: String },
    QueryStore { id: String },
    WriteCache { key: String },
    Finish { result: Result<AuthenticatableEntity, ApiError> },
}

/// What a store answered.  Deserialization of a hit or of queried records
/// happens in the shell; the records arrive here as plain values.
pub enum ResolveEvent {
    /// The cache could not be reached at all.
    CacheConnFailed,
    /// The cache holds nothing under the key.
    CacheMiss,
    /// The cache held a serialized entity.
    CacheHit { entity: AuthenticatableEntity },
    /// The record-store query failed in transport.
    QueryFailed,
    /// The records the query matched, in any order.
    QueryRecords { records: Vec<AuthenticatableEntity> },
    /// The cache could not be reached, or refused the write.
    CacheWriteFailed,
    /// The write-back succeeded.
    CacheWritten,
}

/// Spec mirror of `ResolverState`.
pub enum ResolverStateV {
    AwaitingCacheRead { id: Seq<char> },
    AwaitingQuery { id: Seq<char> },
    AwaitingCacheWrite { entity: EntityView },
    Finished,
}

/// Spec mirror of `ResolveAction`.
pub enum ResolveActionV {
    ReadCache { key: Seq<char> },
    QueryStore { id: Seq<char> },
    WriteCache { key: Seq<char> },
    Finish { result: Result<EntityView, ApiError> },
}

/// Spec mirror of `ResolveEvent`.
pub enum ResolveEventV {
    CacheConnFailed,
    CacheMiss,
    CacheHit { entity: EntityView },
    QueryFailed,
    QueryRecords { records: Seq<EntityView> },
    CacheWriteFailed,
    CacheWritten,
}

impl View for ResolverState {
    type V = ResolverStateV;

    open spec fn view(&self) -> ResolverStateV {
        match self {
            ResolverState::AwaitingCacheRead { id } => ResolverStateV::AwaitingCacheRead {
                id: id@,
            },
            ResolverState::AwaitingQuery { id } => ResolverStateV::AwaitingQuery { id: id@ },
            ResolverState::AwaitingCacheWrite { entity } => ResolverStateV::AwaitingCacheWrite {
                entity: entity@,
            },
            ResolverState::Finished => ResolverStateV::Finished,
        }
    }
}

impl View for ResolveAction {
    type V = ResolveActionV;

    open spec fn view(&self) -> ResolveActionV {
        match self {
            ResolveAction::ReadCache { key } => ResolveActionV::ReadCache { key: key@ },
            ResolveAction::QueryStore { id } => ResolveActionV::QueryStore { id: id@ },
            ResolveAction::WriteCache { key } => ResolveActionV::WriteCache { key: key@ },
            ResolveAction::Finish { result } => ResolveActionV::Finish {
                result: match result {
                    Ok(e) => Ok(e@),
                    Err(er) => Err(*er),
                },
            },
        }
    }
}

impl View for ResolveEvent {
    type V = ResolveEventV;

    open spec fn view(&self) -> ResolveEventV {
        match self {
            ResolveEvent::CacheConnFailed => ResolveEventV::CacheConnFailed,
            ResolveEvent::CacheMiss => ResolveEventV::CacheMiss,
            ResolveEvent::CacheHit { entity } => ResolveEventV::CacheHit { entity: entity@ },
            ResolveEvent::QueryFailed => ResolveEventV::QueryFailed,
            ResolveEvent::QueryRecords { records } => ResolveEventV::QueryRecords {
                records: records.deep_view(),
            },
            ResolveEvent::CacheWriteFailed => ResolveEventV::CacheWriteFailed,
            ResolveEvent::CacheWritten => ResolveEventV::CacheWritten,
        }
    }
}

/// Which events can answer which state.
pub open spec fn compatible(s: ResolverStateV, e: ResolveEventV) -> bool {
    match s {
        ResolverStateV::AwaitingCacheRead { .. } => e is CacheConnFailed || e is CacheMiss
            || e is CacheHit,
        ResolverStateV::AwaitingQuery { .. } => e is QueryFailed || e is QueryRecords,
        ResolverStateV::AwaitingCacheWrite { .. } => e is CacheWriteFailed || e is CacheWritten,
        ResolverStateV::Finished => false,
    }
}

/// The first position of the resolver for `id`: with a force-reload the
/// cache is bypassed and the record store queried at once; otherwise the
/// cache is read first.
pub open spec fn resolve_start_spec(id: Seq<char>, force_reload: bool) -> (
    ResolverStateV,
    ResolveActionV,
) {
    if force_reload {
        (ResolverStateV::AwaitingQuery { id }, ResolveActionV::QueryStore { id })
    } else {
        (
            ResolverStateV::AwaitingCacheRead { id },
            ResolveActionV::ReadCache { key: entity_cache_key(id) },
        )
    }
}

/// One transition of the resolver.
///
/// A cache connection failure on the read path fails the whole call as
/// CacheUnavailable — it never falls through to the record store.  A hit
/// returns the cached record without touching the record store.  A miss
/// queries; a transport failure is ServiceUnavailable, more than one
/// matching record is the integrity violation TooManyEntities, zero is
/// EntityNotFound, and exactly one is written back to the cache under the
/// requested id's key.  A failed write-back is a hard error, not
/// best-effort.
pub open spec fn resolve_step_spec(s: ResolverStateV, e: ResolveEventV) -> (
    ResolverStateV,
    ResolveActionV,
) {
    match s {
        ResolverStateV::AwaitingCacheRead { id } => match e {
            ResolveEventV::CacheConnFailed => (
                ResolverStateV::Finished,
                ResolveActionV::Finish { result: Err(ApiError::CacheUnavailable) },
            ),
            ResolveEventV::CacheHit { entity } => (
                ResolverStateV::Finished,
                ResolveActionV::Finish { result: Ok(entity) },
            ),
            _ => (ResolverStateV::AwaitingQuery { id }, ResolveActionV::QueryStore { id }),
        },
        ResolverStateV::AwaitingQuery { id } => match e {
            ResolveEventV::QueryRecords { records } => {
                if records.len() > 1 {
                    (
                        ResolverStateV::Finished,
                        ResolveActionV::Finish { result: Err(ApiError::TooManyEntities) },
                    )
                } else if records.len() == 0 {
                    (
                        ResolverStateV::Finished,
                        ResolveActionV::Finish { result: Err(ApiError::EntityNotFound) },
                    )
                } else {
                    (
                        ResolverStateV::AwaitingCacheWrite { entity: records[0] },
                        ResolveActionV::WriteCache { key: entity_cache_key(id) },
                    )
                }
            },
            _ => (
                ResolverStateV::Finished,
                ResolveActionV::Finish { result: Err(ApiError::ServiceUnavailable) },
            ),
        },
        ResolverStateV::AwaitingCacheWrite { entity } => match e {
            ResolveEventV::CacheWritten => (
                ResolverStateV::Finished,
                ResolveActionV::Finish { result: Ok(entity) },
            ),
            _ => (
                ResolverStateV::Finished,
                ResolveActionV::Finish { result: Err(ApiError::CacheUnavailable) },
            ),
        },
        ResolverStateV::Finished => (
            ResolverStateV::Finished,
            ResolveActionV::Finish { result: Err(ApiError::CacheUnavailable) },
        ),
    }
}

/// Starts a resolve of `id`.
pub fn resolve_start(id: String, force_reload: bool) -> (r: (ResolverState, ResolveAction))
    ensures
        r.0@ == resolve_start_spec(id@, force_reload).0,
        r.1@ == resolve_start_spec(id@, force_reload).1,
{
    if force_reload {
        let action_id = id.clone();
        (ResolverState::AwaitingQuery { id }, ResolveAction::QueryStore { id: action_id })
    } else {
        let key = entity_cache_key_string(id.as_str());
        (ResolverState::AwaitingCacheRead { id }, ResolveAction::ReadCache { key })
    }
}

/// Performs one transition of the resolver on the store's answer.
pub fn resolve_step(state: ResolverState, event: ResolveEvent) -> (r: (
    ResolverState,
    ResolveAction,
))
    requires
        compatible(state@, event@),
    ensures
        r.0@ == resolve_step_spec(state@, event@).0,
        r.1@ == resolve_step_spec(state@, event@).1,
{
    match (state, event) {
        (ResolverState::AwaitingCacheRead { .. }, ResolveEvent::CacheConnFailed) => (
            ResolverState::Finished,
            ResolveAction::Finish { result: Err(ApiError::CacheUnavailable) },
        ),
        (ResolverState::AwaitingCacheRead { .. }, ResolveEvent::CacheHit { entity }) => (
            ResolverState::Finished,
            ResolveAction::Finish { result: Ok(entity) },
        ),
        (ResolverState::AwaitingCacheRead { id }, ResolveEvent::CacheMiss) => {
            let action_id = id.clone();
            (ResolverState::AwaitingQuery { id }, ResolveAction::QueryStore { id: action_id })
        },
        (ResolverState::AwaitingQuery { .. }, ResolveEvent::QueryFailed) => (
            ResolverState::Finished,
            ResolveAction::Finish { result: Err(ApiError::ServiceUnavailable) },
        ),
        (ResolverState::AwaitingQuery { id }, ResolveEvent::QueryRecords { mut records }) => {
            if records.len() > 1 {
                (
                    ResolverState::Finished,
                    ResolveAction::Finish { result: Err(ApiError::TooManyEntities) },
                )
            } else if records.len() == 0 {
                (
                    ResolverState::Finished,
                    ResolveAction::Finish { result: Err(ApiError::EntityNotFound) },
                )
            } else {
                let ghost pre = records.deep_view();
                let entity = records.remove(0);
                let key = entity_cache_key_string(id.as_str());
                proof {
                    assert(entity@ == pre[0]);
                }
                (
                    ResolverState::AwaitingCacheWrite { entity },
                    ResolveAction::WriteCache { key },
                )
            }
        },
        (ResolverState::AwaitingCacheWrite { .. }, ResolveEvent::CacheWriteFailed) => (
            ResolverState::Finished,
            ResolveAction::Finish { result: Err(ApiError::CacheUnavailable) },
        ),
        (ResolverState::AwaitingCacheWrite { entity }, ResolveEvent::CacheWritten) => (
            ResolverState::Finished,
            ResolveAction::Finish { result: Ok(entity) },
        ),
        (_, _) => vstd::pervasive::unreached(),
    }
}

/// How far a machine position still is from the end; the fault-free run
/// recurses along this.
pub open spec fn state_rank(s: ResolverStateV) -> nat {
    match s {
        ResolverStateV::AwaitingCacheRead { .. } => 3,
        ResolverStateV::AwaitingQuery { .. } => 2,
        ResolverStateV::AwaitingCacheWrite { .. } => 1,
        ResolverStateV::Finished => 0,
    }
}

/// What a fault-free cache answers to a read of `key`.
pub open spec fn cache_read_event(cache: Map<Seq<char>, EntityView>, key: Seq<char>) -> ResolveEventV {
    if cache.contains_key(key) {
        ResolveEventV::CacheHit { entity: cache[key] }
    } else {
        ResolveEventV::CacheMiss
    }
}

/// The records a fault-free record store returns for a query by `id`.
pub open spec fn store_query_records(store: Seq<EntityView>, id: Seq<char>) -> Seq<EntityView> {
    store.filter(|e: EntityView| e.id == id)
}

/// The outcome of driving the resolver against fault-free stores from a
/// machine position on: the result, the cache afterwards, and whether the
/// record store was queried.
pub open spec fn resolve_run_from(
    s: ResolverStateV,
    a: ResolveActionV,
    cache: Map<Seq<char>, EntityView>,
    store: Seq<EntityView>,
) -> (Result<EntityView, ApiError>, Map<Seq<char>, EntityView>, bool)
    decreases state_rank(s),
{
    match a {
        ResolveActionV::Finish { result } => (result, cache, false),
        ResolveActionV::ReadCache { key } => {
            if s is AwaitingCacheRead {
                let next = resolve_step_spec(s, cache_read_event(cache, key));
                resolve_run_from(next.0, next.1, cache, store)
            } else {
                (Err(ApiError::CacheUnavailable), cache, false)
            }
        },
        ResolveActionV::QueryStore { id } => {
            if s is AwaitingQuery {
                let e = ResolveEventV::QueryRecords { records: store_query_records(store, id) };
                let next = resolve_step_spec(s, e);
                let sub = resolve_run_from(next.0, next.1, cache, store);
                (sub.0, sub.1, true)
            } else {
                (Err(ApiError::CacheUnavailable), cache, false)
            }
        },
        ResolveActionV::WriteCache { key } => match s {
            ResolverStateV::AwaitingCacheWrite { entity } => {
                let filled = cache.insert(key, entity);
                let next = resolve_step_spec(s, ResolveEventV::CacheWritten);
                resolve_run_from(next.0, next.1, filled, store)
            },
            _ => (Err(ApiError::CacheUnavailable), cache, false),
        },
    }
}

/// The outcome of a full resolve of `id` against fault-free stores.
pub open spec fn resolve_run(
    cache: Map<Seq<char>, EntityView>,
    store: Seq<EntityView>,
    id: Seq<char>,
    force_reload: bool,
) -> (Result<EntityView, ApiError>, Map<Seq<char>, EntityView>, bool) {
    let start = resolve_start_spec(id, force_reload);
    resolve_run_from(start.0, start.1, cache, store)
}

/// Cache-aside, warm cache: a resolve without force-reload returns exactly
/// the cached record, leaves the cache unchanged and never queries the
/// record store — so repeated calls return identical data.
pub proof fn lemma_warm_cache_resolve(
    cache: Map<Seq<char>, EntityView>,
    store: Seq<EntityView>,
    id: Seq<char>,
)
    requires
        cache.contains_key(entity_cache_key(id)),
    ensures
        resolve_run(cache, store, id, false) == (
            Ok::<EntityView, ApiError>(cache[entity_cache_key(id)]),
            cache,
            false,
        ),
{
    let key = entity_cache_key(id);
    let s0 = ResolverStateV::AwaitingCacheRead { id };
    let a0 = ResolveActionV::ReadCache { key };
    let next = resolve_step_spec(s0, cache_read_event(cache, key));
    assert(next.1 == (ResolveActionV::Finish {
        result: Ok::<EntityView, ApiError>(cache[key]),
    }));
    assert(resolve_run_from(next.0, next.1, cache, store) == (
        Ok::<EntityView, ApiError>(cache[key]),
        cache,
        false,
    ));
}

/// Cache-aside, cold cache with exactly one matching record: the resolve
/// queries the record store, fills the cache under the requested id's key
/// and returns the record; a second resolve then answers from the cache
/// alone, with the same data and no further query.
pub proof fn lemma_cold_cache_resolve(
    cache: Map<Seq<char>, EntityView>,
    store: Seq<EntityView>,
    id: Seq<char>,
)
    requires
        !cache.contains_key(entity_cache_key(id)),
        store_query_records(store, id).len() == 1,
    ensures
        ({
            let record = store_query_records(store, id)[0];
            let filled = cache.insert(entity_cache_key(id), record);
            &&& resolve_run(cache, store, id, false) == (
                Ok::<EntityView, ApiError>(record),
                filled,
                true,
            )
            &&& resolve_run(filled, store, id, false) == (
                Ok::<EntityView, ApiError>(record),
                filled,
                false,
            )
        }),
{
    let key = entity_cache_key(id);
    let record = store_query_records(store, id)[0];
    let filled = cache.insert(key, record);

    let s0 = ResolverStateV::AwaitingCacheRead { id };
    let a0 = ResolveActionV::ReadCache { key };
    assert(cache_read_event(cache, key) == ResolveEventV::CacheMiss);
    let n1 = resolve_step_spec(s0, ResolveEventV::CacheMiss);
    assert(n1.0 == ResolverStateV::AwaitingQuery { id });
    let e2 = ResolveEventV::QueryRecords { records: store_query_records(store, id) };
    let n2 = resolve_step_spec(n1.0, e2);
    assert(n2.0 == ResolverStateV::AwaitingCacheWrite { entity: record });
    assert(n2.1 == ResolveActionV::WriteCache { key });
    let n3 = resolve_step_spec(n2.0, ResolveEventV::CacheWritten);
    assert(resolve_run_from(n3.0, n3.1, filled, store) == (
        Ok::<EntityView, ApiError>(record),
        filled,
        false,
    ));
    assert(resolve_run_from(n2.0, n2.1, cache, store) == (
        Ok::<EntityView, ApiError>(record),
        filled,
        false,
    ));
    assert(resolve_run_from(n1.0, n1.1, cache, store) == (
        Ok::<EntityView, ApiError>(record),
        filled,
        true,
    ));
    assert(resolve_run_from(s0, a0, cache, store) == (
        Ok::<EntityView, ApiError>(record),
        filled,
        true,
    ));
    assert(resolve_run(cache, store, id, false) == (
        Ok::<EntityView, ApiError>(record),
        filled,
        true,
    ));

    lemma_warm_cache_resolve(filled, store, id);
    assert(filled[key] == record);
}

} // verus!

use nys_iam::api_response::ApiError;
use nys_iam::iam::AuthenticatableEntity;
use nys_iam::resolver::ResolveAction;
use nys_iam::resolver::ResolveEvent;
use nys_iam::resolver::ResolverState;
use nys_iam::resolver::entity_cache_key_string;
use nys_iam::resolver::resolve_start;
use nys_iam::resolver::resolve_step;

fn sample_entity(id: &str) -> AuthenticatableEntity {
    AuthenticatableEntity::from_parts(
        id.to_string(),
        "stored-hash".to_string(),
        true,
        vec![format!("nys:*:{}:*:*", id)],
    )
}

#[test]
fn entity_keys_carry_the_id() {
    assert_eq!(entity_cache_key_string("alice"), "entity:alice".to_string());
}

#[test]
fn a_resolve_reads_the_cache_first() {
    let (_, action) = resolve_start("alice".to_string(), false);
    match action {
        ResolveAction::ReadCache { key } => assert_eq!(key, "entity:alice".to_string()),
        _ => panic!("a resolve without force-reload must read the cache first"),
    }
}

#[test]
fn a_force_reload_goes_straight_to_the_record_store() {
    let (_, action) = resolve_start("alice".to_string(), true);
    match action {
        ResolveAction::QueryStore { id } => assert_eq!(id, "alice".to_string()),
        _ => panic!("a force-reload must bypass the cache"),
    }
}

#[test]
fn a_cache_hit_finishes_without_querying() {
    let (state, _) = resolve_start("alice".to_string(), false);
    let (_, action) = resolve_step(
        state,
        ResolveEvent::CacheHit {
            entity: sample_entity("alice"),
        },
    );
    match action {
        ResolveAction::Finish { result } => {
            assert_eq!(result.expect("cached entity").id, "alice".to_string());
        }
        _ => panic!("a hit must finish the resolve"),
    }
}

#[test]
fn a_cache_connection_failure_never_falls_through() {
    let (state, _) = resolve_start("alice".to_string(), false);
    let (_, action) = resolve_step(state, ResolveEvent::CacheConnFailed);
    match action {
        ResolveAction::Finish { result } => {
            assert_eq!(result.expect_err("hard failure"), ApiError::CacheUnavailable);
        }
        _ => panic!("a cache connection failure fails the whole call"),
    }
}

#[test]
fn a_miss_queries_and_one_record_is_written_back() {
    let (state, _) = resolve_start("alice".to_string(), false);
    let (state, action) = resolve_step(state, ResolveEvent::CacheMiss);
    match &action {
        ResolveAction::QueryStore { id } => assert_eq!(id, "alice"),
        _ => panic!("a miss must query the record store"),
    }
    let (state, action) = resolve_step(
        state,
        ResolveEvent::QueryRecords {
            records: vec![sample_entity("alice")],
        },
    );
    match &action {
        ResolveAction::WriteCache { key } => assert_eq!(key, "entity:alice"),
        _ => panic!("one record must be written back to the cache"),
    }
    let (_, action) = resolve_step(state, ResolveEvent::CacheWritten);
    match action {
        ResolveAction::Finish { result } => {
            assert_eq!(result.expect("resolved entity").id, "alice".to_string());
        }
        _ => panic!("the write-back ends the resolve"),
    }
}

#[test]
fn zero_records_is_entity_not_found() {
    let state = ResolverState::AwaitingQuery {
        id: "alice".to_string(),
    };
    let (_, action) = resolve_step(state, ResolveEvent::QueryRecords { records: vec![] });
    match action {
        ResolveAction::Finish { result } => {
            assert_eq!(result.expect_err("no record"), ApiError::EntityNotFound);
        }
        _ => panic!("zero records must finish the resolve"),
    }
}

#[test]
fn duplicate_records_are_surfaced_not_deduplicated() {
    let state = ResolverState::AwaitingQuery {
        id: "alice".to_string(),
    };
    let (_, action) = resolve_step(
        state,
        ResolveEvent::QueryRecords {
            records: vec![sample_entity("alice"), sample_entity("alice")],
        },
    );
    match action {
        ResolveAction::Finish { result } => {
            assert_eq!(result.expect_err("integrity"), ApiError::TooManyEntities);
        }
        _ => panic!("duplicates must finish the resolve"),
    }
}

#[test]
fn a_transport_failure_is_service_unavailable() {
    let state = ResolverState::AwaitingQuery {
        id: "alice".to_string(),
    };
    let (_, action) = resolve_step(state, ResolveEvent::QueryFailed);
    match action {
        ResolveAction::Finish { result } => {
            assert_eq!(result.expect_err("transport"), ApiError::ServiceUnavailable);
        }
        _ => panic!("a transport failure must finish the resolve"),
    }
}

#[test]
fn a_failed_write_back_is_a_hard_error() {
    let state = ResolverState::AwaitingCacheWrite {
        entity: sample_entity("alice"),
    };
    let (_, action) = resolve_step(state, ResolveEvent::CacheWriteFailed);
    match action {
        ResolveAction::Finish { result } => {
            assert_eq!(result.expect_err("hard error"), ApiError::CacheUnavailable);
        }
        _ => panic!("a failed write-back must finish the resolve"),
    }
}

use nys_iam::api_response::ApiError;
use nys_iam::iam::AuthenticatableEntity;
use nys_iam::iam::AuthenticatedSession;
use nys_iam::iam::register_finish;
use nys_iam::session::CreateSessionStep;
use nys_iam::session::SessionReadEvent;
use nys_iam::session::create_session_decide;
use nys_iam::session::create_session_finish;
use nys_iam::session::session_cache_key_string;
use nys_iam::session::session_lookup_decide;

#[test]
fn registration_grants_exactly_the_self_scoped_pattern() {
    let e = AuthenticatableEntity::new("alice".to_string(), "hunter2".to_string())
        .expect("credential hashing failed");
    assert_eq!(
        e.granted_patterns(),
        &vec!["nys:*:alice:*:*".to_string()]
    );
    assert_eq!(e.id, "alice".to_string());
    assert!(e.enabled());
    // the stored credential hash has the fixed 60-character form
    assert_eq!(e.password_hash().len(), 60);
}

#[test]
fn right_password_mints_a_session() {
    let e = AuthenticatableEntity::new("alice".to_string(), "hunter2".to_string())
        .expect("credential hashing failed");
    match create_session_decide(Ok(e), "hunter2") {
        CreateSessionStep::StoreSession { key, session } => {
            assert_eq!(session.entity_id(), "alice");
            assert_eq!(session.id().len(), 36);
            assert_eq!(key, format!("session:{}", session.id()));
        }
        CreateSessionStep::Fail { error } => panic!("expected a session, got {:?}", error),
    }
}

#[test]
fn wrong_password_fails_without_a_cache_write() {
    let e = AuthenticatableEntity::new("alice".to_string(), "hunter2".to_string())
        .expect("credential hashing failed");
    match create_session_decide(Ok(e), "letmein") {
        CreateSessionStep::Fail { error } => assert_eq!(error, ApiError::AuthenticationFailed),
        CreateSessionStep::StoreSession { .. } => {
            panic!("a wrong password must never reach the cache")
        }
    }
}

#[test]
fn malformed_stored_hash_fails_authentication() {
    let e = AuthenticatableEntity::from_parts(
        "alice".to_string(),
        "not-a-real-hash".to_string(),
        true,
        vec![],
    );
    match create_session_decide(Ok(e), "hunter2") {
        CreateSessionStep::Fail { error } => assert_eq!(error, ApiError::AuthenticationFailed),
        CreateSessionStep::StoreSession { .. } => {
            panic!("a verifier fault must never reach the cache")
        }
    }
}

#[test]
fn resolver_error_propagates_through_session_creation() {
    match create_session_decide(Err(ApiError::EntityNotFound), "hunter2") {
        CreateSessionStep::Fail { error } => assert_eq!(error, ApiError::EntityNotFound),
        CreateSessionStep::StoreSession { .. } => panic!("no entity, no session"),
    }
}

#[test]
fn session_finish_builds_the_cookie() {
    let session = AuthenticatedSession::new("tok-1".to_string(), "alice".to_string());
    let (token, cookie) = create_session_finish(session, true).expect("written");
    assert_eq!(token, "tok-1".to_string());
    assert_eq!(cookie.name, "nys-session".to_string());
    assert_eq!(cookie.value, "tok-1".to_string());
    assert!(cookie.secure);
    assert!(cookie.http_only);
    assert_eq!(cookie.path, "/v1".to_string());
}

#[test]
fn session_finish_reports_a_failed_write() {
    let session = AuthenticatedSession::new("tok-1".to_string(), "alice".to_string());
    assert!(matches!(
        create_session_finish(session, false),
        Err(ApiError::CacheUnavailable)
    ));
}

#[test]
fn unknown_token_is_an_invalid_session() {
    assert!(matches!(
        session_lookup_decide(SessionReadEvent::Miss),
        Err(ApiError::InvalidSession)
    ));
}

#[test]
fn cache_failure_on_token_lookup() {
    assert!(matches!(
        session_lookup_decide(SessionReadEvent::ConnFailed),
        Err(ApiError::CacheUnavailable)
    ));
}

#[test]
fn known_token_resolves_to_its_entity_id() {
    let r = session_lookup_decide(SessionReadEvent::Found {
        entity_id: "alice".to_string(),
    });
    assert_eq!(r.expect("found"), "alice".to_string());
}

#[test]
fn session_keys_carry_the_token() {
    assert_eq!(session_cache_key_string("tok-1"), "session:tok-1".to_string());
}

#[test]
fn registration_finish_maps_the_store_answer() {
    assert!(register_finish(true).is_ok());
    assert!(matches!(
        register_finish(false),
        Err(ApiError::ServiceUnavailable)
    ));
}

use nys_iam::api_response::ApiError;
use nys_iam::db::Table;
use nys_iam::iam::AuthenticatableEntity;
use nys_iam::tasker::authorize_task_read;
use nys_iam::tasker::authorize_task_write;
use nys_iam::tasker::new_task;
use nys_iam::tasker::task_read_capability;
use nys_iam::tasker::task_write_capability;

#[test]
fn test() {
    assert_eq!(1 + 1, 2);
}

#[test]
fn table_names() {
    assert_eq!(Table::IAM.as_str(), "NYS_iam");
    assert_eq!(Table::TASKER.as_str(), "NYS_tasker");
}

#[test]
fn error_labels_codes_and_statuses() {
    assert_eq!(ApiError::EntityNotFound.message(), "EntityNotFound");
    assert_eq!(ApiError::EntityNotFound.code(), 0);
    assert_eq!(ApiError::EntityNotFound.status_code(), 404);
    assert_eq!(ApiError::TooManyEntities.code(), 1);
    assert_eq!(ApiError::TooManyEntities.status_code(), 500);
    assert_eq!(ApiError::ServiceUnavailable.status_code(), 503);
    assert_eq!(ApiError::CacheUnavailable.status_code(), 503);
    assert_eq!(ApiError::AuthenticationFailed.status_code(), 401);
    assert_eq!(ApiError::MissingSessionKey.status_code(), 401);
    assert_eq!(ApiError::InvalidSession.status_code(), 401);
    assert_eq!(ApiError::NoMatchingPrivilege.status_code(), 401);
    assert_eq!(ApiError::MalformedCapability.status_code(), 500);
    // the two capability kinds have always shared one numeric code
    assert_eq!(ApiError::NoMatchingPrivilege.code(), 7);
    assert_eq!(ApiError::MalformedCapability.code(), 7);
    assert_eq!(
        ApiError::AuthenticationFailed.additional_information(),
        "Failed to authenticate entity with the provided credentials."
    );
}

#[test]
fn task_capability_texts() {
    assert_eq!(
        task_write_capability("alice"),
        "nys:tasker:alice:TaskList:Write".to_string()
    );
    assert_eq!(
        task_read_capability("alice"),
        "nys:tasker:alice:TaskList:Read".to_string()
    );
}

#[test]
fn task_gates_check_the_entity_scope() {
    let e = AuthenticatableEntity::from_parts(
        "alice".to_string(),
        "stored-hash".to_string(),
        true,
        vec!["nys:*:alice:*:*".to_string()],
    );
    assert!(authorize_task_write(&e, "alice").is_ok());
    assert!(authorize_task_read(&e, "alice").is_ok());
    assert!(matches!(
        authorize_task_write(&e, "bob"),
        Err(ApiError::NoMatchingPrivilege)
    ));
}

#[test]
fn a_new_task_is_open_and_owned() {
    let t = new_task("alice".to_string(), "water the plants".to_string());
    assert_eq!(t.owner, "alice".to_string());
    assert_eq!(t.description, "water the plants".to_string());
    assert!(!t.completed);
    assert_eq!(t.id.len(), 36);
}

use nys_iam::api_response::ApiError;
use nys_iam::capability::CapabilityString;
use nys_iam::iam::AuthenticatableEntity;

fn entity_with(patterns: Vec<String>) -> AuthenticatableEntity {
    AuthenticatableEntity::from_parts(
        "alice".to_string(),
        "not-a-real-hash".to_string(),
        true,
        patterns,
    )
}

#[test]
fn parse_rejects_wrong_segment_count() {
    assert!(matches!(
        CapabilityString::parse(""),
        Err(ApiError::MalformedCapability)
    ));
    assert!(matches!(
        CapabilityString::parse("nys"),
        Err(ApiError::MalformedCapability)
    ));
    assert!(matches!(
        CapabilityString::parse("a:b:c:d"),
        Err(ApiError::MalformedCapability)
    ));
    assert!(matches!(
        CapabilityString::parse("a:b:c:d:e:f"),
        Err(ApiError::MalformedCapability)
    ));
}

#[test]
fn parse_accepts_five_segments() {
    assert!(CapabilityString::parse("nys:tasker:alice:TaskList:Write").is_ok());
}

#[test]
fn parse_drops_a_single_trailing_delimiter() {
    // a trailing delimiter does not add a sixth, empty segment
    assert!(CapabilityString::parse("a:b:c:d:e:").is_ok());
    // but an interior empty segment still counts
    assert!(matches!(
        CapabilityString::parse("a::c:d"),
        Err(ApiError::MalformedCapability)
    ));
}

#[test]
fn parse_counts_segments_not_their_content() {
    // five empty segments are still five segments
    assert!(CapabilityString::parse(":::::").is_ok());
    // four are not
    assert!(matches!(
        CapabilityString::parse("::::"),
        Err(ApiError::MalformedCapability)
    ));
}

#[test]
fn empty_granted_segments_accept_anything() {
    // an empty granted segment is never longer than the requested one and
    // its scan runs out at once, so it accepts any requested segment
    let e = entity_with(vec![":::::".to_string()]);
    assert!(e
        .assert_privilege("nys:tasker:alice:TaskList:Write".to_string())
        .is_ok());
}

#[test]
fn identical_pattern_allows() {
    let e = entity_with(vec!["nys:tasker:alice:TaskList:Write".to_string()]);
    assert!(e
        .assert_privilege("nys:tasker:alice:TaskList:Write".to_string())
        .is_ok());
}

#[test]
fn empty_grant_list_denies() {
    let e = entity_with(vec![]);
    assert!(matches!(
        e.assert_privilege("nys:tasker:alice:TaskList:Write".to_string()),
        Err(ApiError::NoMatchingPrivilege)
    ));
}

#[test]
fn longer_granted_segment_rejects_pattern() {
    // granted `tasker` against requested `ta`: longer, so the pattern is out
    let e = entity_with(vec!["nys:tasker:alice:*:*".to_string()]);
    assert!(matches!(
        e.assert_privilege("nys:ta:alice:TaskList:Write".to_string()),
        Err(ApiError::NoMatchingPrivilege)
    ));
}

#[test]
fn wildcard_pattern_allows() {
    let e = entity_with(vec!["nys:*:alice:*:*".to_string()]);
    assert!(e
        .assert_privilege("nys:tasker:alice:TaskList:Write".to_string())
        .is_ok());
}

#[test]
fn longer_service_segment_denies() {
    // segment two: `tasklist` (length 8) against `tasker` (length 6)
    let e = entity_with(vec!["nys:tasklist:alice:*:*".to_string()]);
    assert!(matches!(
        e.assert_privilege("nys:tasker:alice:TaskList:Write".to_string()),
        Err(ApiError::NoMatchingPrivilege)
    ));
}

#[test]
fn malformed_request_rejected_before_patterns() {
    let e = entity_with(vec!["nys:tasker:alice:TaskList:Write".to_string()]);
    assert!(matches!(
        e.assert_privilege("nys:tasker:alice".to_string()),
        Err(ApiError::MalformedCapability)
    ));
}

#[test]
fn malformed_pattern_is_skipped_not_an_error() {
    let e = entity_with(vec![
        "nys:tasker".to_string(),
        "nys:*:alice:*:*".to_string(),
    ]);
    assert!(e
        .assert_privilege("nys:tasker:alice:TaskList:Write".to_string())
        .is_ok());
}

#[test]
fn scan_of_pure_mismatches_accepts_the_segment() {
    // `abc` against `xyz`: every position is a literal mismatch, the scan
    // runs out, and the segment is accepted
    let e = entity_with(vec!["nys:abc:alice:*:*".to_string()]);
    assert!(e
        .assert_privilege("nys:xyz:alice:TaskList:Write".to_string())
        .is_ok());
}

#[test]
fn literal_match_in_scan_rejects_the_pattern() {
    // `t*` against `tasker`: the scan sees the literal match `t` before the
    // wildcard and rejects the whole pattern
    let e = entity_with(vec!["nys:t*:alice:*:*".to_string()]);
    assert!(matches!(
        e.assert_privilege("nys:tasker:alice:TaskList:Write".to_string()),
        Err(ApiError::NoMatchingPrivilege)
    ));
    // `x*` against `tasker`: mismatch, then wildcard, so the segment is
    // accepted in full
    let e2 = entity_with(vec!["nys:x*:alice:*:*".to_string()]);
    assert!(e2
        .assert_privilege("nys:tasker:alice:TaskList:Write".to_string())
        .is_ok());
}

#[test]
fn first_authorizing_pattern_wins() {
    let e = entity_with(vec![
        "nys:tasklist:alice:*:*".to_string(),
        "nys:*:alice:*:*".to_string(),
    ]);
    assert!(e
        .assert_privilege("nys:tasker:alice:TaskList:Write".to_string())
        .is_ok());
}

use policy_bridge::entry;
use policy_bridge::errors::EntryError;
use policy_bridge::errors::ValidateError;
use policy_bridge::schema::validate_policy;

#[test]
fn zero_rules_always_pass() {
    assert_eq!(validate_policy("", None), Ok(()));
    assert_eq!(validate_policy("", Some(Vec::new())), Ok(()));
}

#[test]
fn all_validation_errors_are_reported() {
    // two rules, each with its own independent validation error against a
    // schema that declares no entity types at all
    let policy = "permit(principal == User::\"a\", action, resource);\n\
                  permit(principal == Team::\"b\", action, resource);";
    let out = validate_policy(policy, None);
    match out {
        Err(ValidateError::ValidationError(msg)) => {
            assert!(msg.contains("User"), "first error lost: {msg}");
            assert!(msg.contains("Team"), "second error lost: {msg}");
        }
        other => panic!("expected a validation failure, got {:?}", other),
    }
}

#[test]
fn valid_rules_pass_against_matching_fragment() {
    let fragment = "{\"\": {\
        \"entityTypes\": {\"User\": {}, \"Doc\": {}},\
        \"actions\": {\"view\": {\"appliesTo\": {\
            \"principalTypes\": [\"User\"], \"resourceTypes\": [\"Doc\"]}}}}}";
    let policy = "permit(principal == User::\"alice\", action == Action::\"view\", \
                  resource == Doc::\"1\");";
    assert_eq!(validate_policy(policy, Some(vec![fragment])), Ok(()));
}

#[test]
fn bad_fragment_is_a_parse_error() {
    let out = validate_policy("permit(principal, action, resource);", Some(vec!["not json"]));
    assert!(matches!(out, Err(ValidateError::ParseError(_))));
}

#[test]
fn malformed_policy_is_a_parse_error() {
    let out = validate_policy("permit(", None);
    assert!(matches!(out, Err(ValidateError::ParseError(_))));
}

#[test]
fn validate_payload_entry() {
    let payload = "{\"policy\": \"permit(principal == User::\\\"a\\\", action, resource);\",\
                    \"additional_schema_fragments\": []}";
    let out = entry::validate_policy(payload);
    assert!(matches!(out, Err(EntryError::Validate(ValidateError::ValidationError(_)))));
}

#[test]
fn validate_payload_blank_policy_is_invalid() {
    let payload = "{\"policy\": \"  \", \"additional_schema_fragments\": []}";
    assert_eq!(entry::validate_policy(payload), Err(EntryError::InvalidPayload));
}

#[test]
fn validate_payload_missing_fields() {
    assert_eq!(
        entry::validate_policy("{\"additional_schema_fragments\": []}"),
        Err(EntryError::MissingField("policy".to_string()))
    );
    assert_eq!(
        entry::validate_policy("{\"policy\": \"x\"}"),
        Err(EntryError::MissingField(
            "additional_schema_fragments".to_string()
        ))
    );
}

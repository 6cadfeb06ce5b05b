use policy_bridge::authz::is_authorized;
use policy_bridge::entry::authorize;
use policy_bridge::errors::EntryError;
use policy_bridge::errors::MyError;
use policy_bridge::report::PolicyDecision;

fn empty_context() -> serde_json::Value {
    serde_json::from_str("{}").unwrap()
}

#[test]
fn allow_single_permit_rule() {
    let report = is_authorized(
        "User::\"alice\"",
        "Action::\"view\"",
        "Doc::\"1\"",
        "permit(principal, action, resource);",
        "[]",
        &empty_context(),
    )
    .unwrap();
    assert!(matches!(report.decision, PolicyDecision::Allow));
    assert_eq!(report.reasons.len(), 1);
    assert!(report.reasons[0].invoked);
    assert!(report.reasons[0].annotations.is_empty());
    assert!(report.errors.is_empty());
}

#[test]
fn deny_single_forbid_rule() {
    let report = is_authorized(
        "User::\"alice\"",
        "Action::\"view\"",
        "Doc::\"1\"",
        "forbid(principal, action, resource);",
        "[]",
        &empty_context(),
    )
    .unwrap();
    assert!(matches!(report.decision, PolicyDecision::Deny));
    assert_eq!(report.reasons.len(), 1);
    assert!(report.reasons[0].invoked);
    assert!(report.errors.is_empty());
}

#[test]
fn two_rules_only_one_applies() {
    let policy = "permit(principal == User::\"alice\", action, resource);\n\
                  @note(\"kept\")\n\
                  permit(principal == User::\"bob\", action, resource);";
    let report = is_authorized(
        "User::\"alice\"",
        "Action::\"view\"",
        "Doc::\"1\"",
        policy,
        "[]",
        &empty_context(),
    )
    .unwrap();
    assert!(matches!(report.decision, PolicyDecision::Allow));
    assert_eq!(report.reasons.len(), 2);
    let invoked: Vec<&str> = report
        .reasons
        .iter()
        .filter(|r| r.invoked)
        .map(|r| r.policy_id.as_str())
        .collect();
    assert_eq!(invoked, vec!["policy0"]);
    let idle = report.reasons.iter().find(|r| !r.invoked).unwrap();
    assert_eq!(idle.policy_id, "policy1");
    assert_eq!(
        idle.annotations,
        vec![("note".to_string(), "kept".to_string())]
    );
}

#[test]
fn annotations_of_invoked_rule_are_preserved() {
    let policy = "@owner(\"ops\")\n@tier(\"gold\")\npermit(principal, action, resource);";
    let report = is_authorized(
        "User::\"alice\"",
        "Action::\"view\"",
        "Doc::\"1\"",
        policy,
        "[]",
        &empty_context(),
    )
    .unwrap();
    assert_eq!(report.reasons.len(), 1);
    assert!(report.reasons[0].invoked);
    let mut annots = report.reasons[0].annotations.clone();
    annots.sort();
    assert_eq!(
        annots,
        vec![
            ("owner".to_string(), "ops".to_string()),
            ("tier".to_string(), "gold".to_string()),
        ]
    );
}

#[test]
fn blank_fields_rejected_before_parsing() {
    let ctx = empty_context();
    let good_policy = "permit(principal, action, resource);";
    for (p, a, r, pol, e) in [
        ("", "Action::\"view\"", "Doc::\"1\"", good_policy, "[]"),
        ("User::\"alice\"", "  ", "Doc::\"1\"", good_policy, "[]"),
        ("User::\"alice\"", "Action::\"view\"", "\t", good_policy, "[]"),
        ("User::\"alice\"", "Action::\"view\"", "Doc::\"1\"", "   ", "[]"),
        ("User::\"alice\"", "Action::\"view\"", "Doc::\"1\"", good_policy, ""),
    ] {
        let out = is_authorized(p, a, r, pol, e, &ctx);
        assert_eq!(out, Err(MyError::InvalidPayload));
    }
}

#[test]
fn malformed_fields_rejected_as_invalid_payload() {
    let ctx = empty_context();
    let good_policy = "permit(principal, action, resource);";
    // principal not a typed entity reference
    let out = is_authorized("alice", "Action::\"view\"", "Doc::\"1\"", good_policy, "[]", &ctx);
    assert_eq!(out, Err(MyError::InvalidPayload));
    // entities text is not a JSON entity collection
    let out = is_authorized(
        "User::\"alice\"",
        "Action::\"view\"",
        "Doc::\"1\"",
        good_policy,
        "not json",
        &ctx,
    );
    assert_eq!(out, Err(MyError::InvalidPayload));
    // policy text is malformed
    let out = is_authorized(
        "User::\"alice\"",
        "Action::\"view\"",
        "Doc::\"1\"",
        "permit(",
        "[]",
        &ctx,
    );
    assert_eq!(out, Err(MyError::InvalidPayload));
}

#[test]
fn authorize_payload_allow() {
    let payload = "{\"principal\":\"User::\\\"alice\\\"\",\
                    \"action\":\"Action::\\\"view\\\"\",\
                    \"resource\":\"Doc::\\\"1\\\"\",\
                    \"policy\":\"permit(principal, action, resource);\",\
                    \"entities\":\"[]\",\
                    \"context\":\"{}\"}";
    let report = authorize(payload).unwrap();
    assert!(matches!(report.decision, PolicyDecision::Allow));
    assert_eq!(report.reasons.len(), 1);
    assert!(report.reasons[0].invoked);
}

#[test]
fn authorize_payload_missing_context_names_the_field() {
    let payload = "{\"principal\":\"User::\\\"alice\\\"\",\
                    \"action\":\"Action::\\\"view\\\"\",\
                    \"resource\":\"Doc::\\\"1\\\"\",\
                    \"policy\":\"permit(principal, action, resource);\",\
                    \"entities\":\"[]\"}";
    let out = authorize(payload);
    assert_eq!(out, Err(EntryError::MissingField("context".to_string())));
}

#[test]
fn authorize_payload_invalid_context_json_is_distinct() {
    let payload = "{\"principal\":\"User::\\\"alice\\\"\",\
                    \"action\":\"Action::\\\"view\\\"\",\
                    \"resource\":\"Doc::\\\"1\\\"\",\
                    \"policy\":\"permit(principal, action, resource);\",\
                    \"entities\":\"[]\",\
                    \"context\":\"not json\"}";
    let out = authorize(payload);
    assert_eq!(out, Err(EntryError::MalformedContext));
    assert_ne!(out, Err(EntryError::InvalidPayload));
}

#[test]
fn authorize_payload_not_json_is_malformed() {
    assert_eq!(authorize("not json"), Err(EntryError::MalformedPayload));
}

#[test]
fn authorize_payload_missing_principal_names_the_field() {
    let payload = "{\"action\":\"Action::\\\"view\\\"\"}";
    let out = authorize(payload);
    assert_eq!(out, Err(EntryError::MissingField("principal".to_string())));
}

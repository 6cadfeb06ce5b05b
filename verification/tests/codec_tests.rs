use policy_bridge::authz::is_authorized;
use policy_bridge::codec::from_json;
use policy_bridge::codec::to_json;
use policy_bridge::entry::policy_from_json;
use policy_bridge::errors::CodecError;
use policy_bridge::errors::EntryError;

#[test]
fn to_json_one_value_per_rule() {
    let text = "permit(principal, action, resource);\n\
                forbid(principal == User::\"eve\", action, resource);";
    let values = to_json(text).unwrap();
    assert_eq!(values.len(), 2);
}

#[test]
fn to_json_rejects_malformed_text_atomically() {
    let out = to_json("permit(principal, action, resource); permit(");
    assert_eq!(out, Err(CodecError::InvalidPayload));
}

#[test]
fn from_json_empty_batch_is_empty_text() {
    assert_eq!(from_json(Vec::new()).unwrap(), "");
}

#[test]
fn to_json_empty_text_is_empty_array() {
    assert_eq!(to_json("").unwrap(), Vec::<serde_json::Value>::new());
}

#[test]
fn from_json_assigns_positional_identifiers() {
    let text = "permit(principal, action, resource);\n\
                forbid(principal, action, resource);";
    let values = to_json(text).unwrap();
    let rebuilt = from_json(values).unwrap();
    let reparsed = to_json(&rebuilt).unwrap();
    assert_eq!(reparsed.len(), 2);
    // the rebuilt text is two rules joined by one newline separator
    assert_eq!(rebuilt.matches("permit(").count(), 1);
    assert_eq!(rebuilt.matches("forbid(").count(), 1);
}

#[test]
fn from_json_rejects_bad_value_atomically() {
    let good = to_json("permit(principal, action, resource);").unwrap();
    let mut batch = good.clone();
    batch.push(serde_json::from_str("{\"bogus\": true}").unwrap());
    let out = from_json(batch);
    assert!(matches!(out, Err(CodecError::ConversionError(_))));
}

#[test]
fn round_trip_preserves_decisions() {
    let text = "permit(principal == User::\"alice\", action, resource);\n\
                forbid(principal == User::\"eve\", action, resource);";
    let values = to_json(text).unwrap();
    let rebuilt = from_json(values).unwrap();
    let ctx: serde_json::Value = serde_json::from_str("{}").unwrap();
    for who in ["User::\"alice\"", "User::\"eve\"", "User::\"bob\""] {
        let before =
            is_authorized(who, "Action::\"view\"", "Doc::\"1\"", text, "[]", &ctx).unwrap();
        let after =
            is_authorized(who, "Action::\"view\"", "Doc::\"1\"", &rebuilt, "[]", &ctx).unwrap();
        assert_eq!(before.decision, after.decision);
        assert_eq!(before.reasons.len(), after.reasons.len());
    }
}

#[test]
fn round_trip_preserves_annotations_not_identifiers() {
    let text = "@shade(\"blue\")\npermit(principal, action, resource);";
    let values = to_json(text).unwrap();
    let rebuilt = from_json(values).unwrap();
    let ctx: serde_json::Value = serde_json::from_str("{}").unwrap();
    let report = is_authorized(
        "User::\"alice\"",
        "Action::\"view\"",
        "Doc::\"1\"",
        &rebuilt,
        "[]",
        &ctx,
    )
    .unwrap();
    assert_eq!(report.reasons.len(), 1);
    assert_eq!(
        report.reasons[0].annotations,
        vec![("shade".to_string(), "blue".to_string())]
    );
    assert_eq!(report.reasons[0].policy_id, "policy0");
}

#[test]
fn policy_from_json_payload() {
    let values = to_json("permit(principal, action, resource);").unwrap();
    let inner = serde_json::Value::Array(values);
    let mut payload_map = serde_json::Map::new();
    payload_map.insert("policies".to_string(), inner);
    let payload = serde_json::Value::Object(payload_map).to_string();
    let text = policy_from_json(&payload).unwrap();
    assert!(text.contains("permit"));
}

#[test]
fn policy_from_json_payload_missing_field() {
    assert_eq!(
        policy_from_json("{}"),
        Err(EntryError::MissingField("policies".to_string()))
    );
    assert_eq!(policy_from_json("no"), Err(EntryError::MalformedPayload));
}

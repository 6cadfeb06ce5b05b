use std::str::FromStr;

use policy_bridge::errors::MyError;
use policy_bridge::report::build_report;
use policy_bridge::report::PolicyDecision;
use policy_bridge::strutil::join_strings;
use policy_bridge::strutil::synthetic_policy_id;
use policy_bridge::strutil::u64_to_dec;

#[test]
fn decimal_rendering() {
    assert_eq!(u64_to_dec(0), "0");
    assert_eq!(u64_to_dec(7), "7");
    assert_eq!(u64_to_dec(10), "10");
    assert_eq!(u64_to_dec(90201), "90201");
    assert_eq!(u64_to_dec(u64::MAX), "18446744073709551615");
}

#[test]
fn synthetic_identifiers() {
    assert_eq!(synthetic_policy_id(0), "policy0");
    assert_eq!(synthetic_policy_id(1), "policy1");
    assert_eq!(synthetic_policy_id(42), "policy42");
}

#[test]
fn joining_keeps_every_element() {
    let elems = vec!["first".to_string(), "second".to_string(), "third".to_string()];
    let joined = join_strings(&elems, "\n ");
    assert_eq!(joined, "first\n second\n third");
    for e in &elems {
        assert!(joined.contains(e.as_str()));
    }
    assert_eq!(join_strings(&Vec::new(), "\n "), "");
    assert_eq!(join_strings(&vec!["only".to_string()], "\n "), "only");
}

#[test]
fn error_messages() {
    assert_eq!(
        MyError::MissingField("context".to_string()).message(),
        "Missing field: context"
    );
    assert_eq!(MyError::InvalidPayload.message(), "Invalid payload");
}

#[test]
fn report_covers_every_entry_with_membership_flags() {
    let entries = vec![
        ("rule_a".to_string(), vec![("k".to_string(), "v".to_string())]),
        ("rule_b".to_string(), Vec::new()),
        ("rule_c".to_string(), Vec::new()),
    ];
    let reason_list = vec!["rule_c".to_string(), "rule_a".to_string()];
    let errors = vec!["an evaluation error".to_string()];
    let report = build_report(&entries, &reason_list, false, errors);
    assert!(matches!(report.decision, PolicyDecision::Deny));
    assert_eq!(report.reasons.len(), 3);
    assert_eq!(report.reasons[0].policy_id, "rule_a");
    assert!(report.reasons[0].invoked);
    assert_eq!(
        report.reasons[0].annotations,
        vec![("k".to_string(), "v".to_string())]
    );
    assert_eq!(report.reasons[1].policy_id, "rule_b");
    assert!(!report.reasons[1].invoked);
    assert_eq!(report.reasons[2].policy_id, "rule_c");
    assert!(report.reasons[2].invoked);
    assert_eq!(report.errors, vec!["an evaluation error".to_string()]);
}

#[test]
fn report_on_empty_entry_list() {
    let report = build_report(&Vec::new(), &Vec::new(), true, Vec::new());
    assert!(matches!(report.decision, PolicyDecision::Allow));
    assert!(report.reasons.is_empty());
    assert!(report.errors.is_empty());
}

#[test]
fn format_answer_reflects_reason_set_membership() {
    let text = "@a(\"1\")\npermit(principal, action, resource);\n\
                forbid(principal == User::\"x\", action, resource);";
    let ps = cedar_policy::PolicySet::from_str(text).unwrap();
    let mut reasons = std::collections::HashSet::new();
    reasons.insert(cedar_policy::PolicyId::from_str("policy1").unwrap());
    let resp = cedar_policy::Response::new(cedar_policy::Decision::Deny, reasons, Vec::new());
    let report = policy_bridge::report::format_answer(&resp, &ps).unwrap();
    assert!(matches!(report.decision, PolicyDecision::Deny));
    assert_eq!(report.reasons.len(), 2);
    let first = report.reasons.iter().find(|r| r.policy_id == "policy0").unwrap();
    assert!(!first.invoked);
    assert_eq!(first.annotations, vec![("a".to_string(), "1".to_string())]);
    let second = report.reasons.iter().find(|r| r.policy_id == "policy1").unwrap();
    assert!(second.invoked);
    assert!(second.annotations.is_empty());
    assert!(report.errors.is_empty());
}

#[test]
fn evaluation_errors_are_aggregated() {
    let ctx: serde_json::Value = serde_json::from_str("{}").unwrap();
    let report = policy_bridge::authz::is_authorized(
        "User::\"alice\"",
        "Action::\"view\"",
        "Doc::\"1\"",
        "permit(principal, action, resource) when { principal.level > 1 };",
        "[]",
        &ctx,
    )
    .unwrap();
    assert!(matches!(report.decision, PolicyDecision::Deny));
    assert_eq!(report.reasons.len(), 1);
    assert!(!report.reasons[0].invoked);
    assert!(!report.errors.is_empty());
}

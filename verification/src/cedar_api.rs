//! Trusted boundary around the Cedar policy engine and serde_json. Each item
//! here wraps one outside call; its contract states only what that call's own
//! source shows. Everything built on top of these contracts is verified.

use vstd::prelude::*;

use std::str::FromStr;

verus! {

#[verifier::external_type_specification]
#[verifier::external_body]
pub struct ExPolicySet(cedar_policy::PolicySet);

#[verifier::external_type_specification]
#[verifier::external_body]
pub struct ExEntityUid(cedar_policy::EntityUid);

#[verifier::external_type_specification]
#[verifier::external_body]
pub struct ExEntities(cedar_policy::Entities);

#[verifier::external_type_specification]
#[verifier::external_body]
pub struct ExContext(cedar_policy::Context);

#[verifier::external_type_specification]
#[verifier::external_body]
pub struct ExRequest(cedar_policy::Request);

#[verifier::external_type_specification]
#[verifier::external_body]
pub struct ExResponse(cedar_policy::Response);

#[verifier::external_type_specification]
#[verifier::external_body]
pub struct ExSchema(cedar_policy::Schema);

#[verifier::external_type_specification]
#[verifier::external_body]
pub struct ExSchemaFragment(cedar_policy::SchemaFragment);

#[verifier::external_type_specification]
#[verifier::external_body]
pub struct ExValidator(cedar_policy::Validator);

#[verifier::external_type_specification]
#[verifier::external_body]
pub struct ExValidationResult(cedar_policy::ValidationResult);

#[verifier::external_type_specification]
#[verifier::external_body]
pub struct ExValue(serde_json::Value);

/// What a `cedar_policy::PolicySet` holds, in its iteration order (the set
/// keeps policies in insertion order): for each policy, its identifier and
/// its annotation key/value pairs, in the policy's annotation order.
pub uninterp spec fn policy_entries_of(ps: cedar_policy::PolicySet) -> Seq<
    (Seq<char>, Seq<(Seq<char>, Seq<char>)>),
>;

/// How many templates a `cedar_policy::PolicySet` holds (templates are kept
/// beside the policies and are also examined by validation).
pub uninterp spec fn template_count_of(ps: cedar_policy::PolicySet) -> nat;

/// What `cedar_policy::PolicySet::from_str` yields on the given text: `None`
/// when the text is rejected, otherwise the parsed set, a function of the
/// text alone.
pub uninterp spec fn parsed_policy_set_of(s: Seq<char>) -> Option<cedar_policy::PolicySet>;

/// Whether `cedar_policy::EntityUid::from_str` accepts the given text.
pub uninterp spec fn entity_uid_ok(s: Seq<char>) -> bool;

/// Whether `cedar_policy::Entities::from_json_str` (with no schema) accepts
/// the given text.
pub uninterp spec fn entities_ok(s: Seq<char>) -> bool;

/// Whether `cedar_policy::Context::from_json_value` (with no schema) accepts
/// the given document.
pub uninterp spec fn context_ok(v: serde_json::Value) -> bool;

/// What `cedar_policy::SchemaFragment::from_json_str` yields on the given
/// text: `None` when the text is rejected, otherwise the parsed fragment.
pub uninterp spec fn schema_fragment_of(s: Seq<char>) -> Option<cedar_policy::SchemaFragment>;

/// What `cedar_policy::Schema::from_schema_fragments` yields on the given
/// fragments: `None` when the merge is rejected, otherwise the composed
/// schema.
pub uninterp spec fn schema_merge_of(frags: Seq<cedar_policy::SchemaFragment>) -> Option<
    cedar_policy::Schema,
>;

/// What `cedar_policy::Validator::new` yields on the given schema.
pub uninterp spec fn validator_of(schema: cedar_policy::Schema) -> cedar_policy::Validator;

/// The error messages that `cedar_policy::Validator::validate` (in the
/// default mode) reports for the given validator and policy set, in the
/// result's own order.
pub uninterp spec fn validation_outcome_of(
    v: cedar_policy::Validator,
    ps: cedar_policy::PolicySet,
) -> Seq<Seq<char>>;

/// What `serde_json::from_str` yields on the given text: `None` when the
/// text is not JSON, otherwise the parsed value.
pub uninterp spec fn json_value_of(s: Seq<char>) -> Option<serde_json::Value>;

/// What reading a top-level field of a JSON document as a string yields
/// (`serde_json::Value::get` then `Value::as_str`): `None` when the field is
/// absent or not a string, otherwise the string's characters.
pub uninterp spec fn field_str_of(v: serde_json::Value, name: Seq<char>) -> Option<Seq<char>>;

/// What reading a top-level field of a JSON document as an array yields
/// (`serde_json::Value::get` then `Value::as_array`): `None` when the field
/// is absent or not an array, otherwise the array's values.
pub uninterp spec fn field_values_of(v: serde_json::Value, name: Seq<char>) -> Option<
    Seq<serde_json::Value>,
>;

/// What reading a top-level array field of a JSON document as strings yields:
/// `None` when the field is absent or not an array, otherwise one string per
/// element, a non-string element read as the empty string.
pub uninterp spec fn field_str_list_of(v: serde_json::Value, name: Seq<char>) -> Option<
    Seq<Seq<char>>,
>;

/// What `str::trim` leaves of the given text.
pub uninterp spec fn trim_of(s: Seq<char>) -> Seq<char>;

/// The messages of the errors a `cedar_policy::ValidationResult` holds, in
/// the result's own order.
pub uninterp spec fn validation_messages_of(r: cedar_policy::ValidationResult) -> Seq<Seq<char>>;

/// The diagnostic reason set of a `cedar_policy::Response`: the identifiers
/// of the policies that contributed to the decision.
pub uninterp spec fn reasons_of(r: cedar_policy::Response) -> Set<Seq<char>>;

/// The messages of the evaluation errors a `cedar_policy::Response` holds, in
/// the response's own order.
pub uninterp spec fn errors_of(r: cedar_policy::Response) -> Seq<Seq<char>>;

/// Whether a `cedar_policy::Response` carries the Allow decision.
pub uninterp spec fn response_allows(r: cedar_policy::Response) -> bool;

/// What converting one policy of a set to its structured (JSON) form, for
/// every policy of the set in the set's iteration order, yields
/// (`cedar_policy::Policy::to_json` under `PolicySet::policies`): `None` when
/// any conversion is rejected, otherwise one value per policy.
pub uninterp spec fn policy_jsons_of(ps: cedar_policy::PolicySet) -> Option<
    Seq<serde_json::Value>,
>;

/// What converting one structured rule back to text under the given
/// identifier yields (`cedar_policy::Policy::from_json` then the policy's
/// text rendering): `None` when the value is rejected, otherwise the rule
/// text.
pub uninterp spec fn policy_text_of(id: Seq<char>, v: serde_json::Value) -> Option<Seq<char>>;

/// Relies on `cedar_policy::EntityUid::from_str`: parses a typed entity
/// reference of the shape `Type::"id"`; whether it succeeds depends on the
/// text alone.
#[verifier::external_body]
pub(crate) fn parse_entity_uid(s: &str) -> (r: Option<cedar_policy::EntityUid>)
    ensures
        r is Some <==> entity_uid_ok(s@),
{
    s.parse().ok()
}

/// Relies on `cedar_policy::Entities::from_json_str` with no schema: parses a
/// JSON entity collection; whether it succeeds depends on the text alone.
#[verifier::external_body]
pub(crate) fn parse_entities(s: &str) -> (r: Option<cedar_policy::Entities>)
    ensures
        r is Some <==> entities_ok(s@),
{
    cedar_policy::Entities::from_json_str(s, None).ok()
}

/// Relies on `cedar_policy::Context::from_json_value` with no schema: builds
/// a request context from an already-parsed JSON document; whether it
/// succeeds depends on the document alone (it rejects documents that are not
/// objects).
#[verifier::external_body]
pub(crate) fn parse_context_value(v: &serde_json::Value) -> (r: Option<cedar_policy::Context>)
    ensures
        r is Some <==> context_ok(*v),
{
    cedar_policy::Context::from_json_value(v.clone(), None).ok()
}

/// Relies on `cedar_policy::PolicySet::from_str`: parses a whole policy set
/// atomically; the parsed set depends on the text alone, and empty text
/// parses to the empty set. The error case carries the parser's own message.
#[verifier::external_body]
pub(crate) fn parse_policy_set(s: &str) -> (r: Result<cedar_policy::PolicySet, String>)
    ensures
        r is Ok <==> parsed_policy_set_of(s@) is Some,
        r matches Ok(ps) ==> parsed_policy_set_of(s@) == Some(ps),
        r matches Ok(ps) ==> s@.len() == 0 ==> policy_entries_of(ps).len() == 0
            && template_count_of(ps) == 0,
        s@.len() == 0 ==> r is Ok,
{
    cedar_policy::PolicySet::from_str(s).map_err(|e| e.to_string())
}

/// Relies on `cedar_policy::Request::new` with no schema: assembles the
/// principal, action, resource and context into a request; with no schema to
/// check the request against, the call always succeeds.
#[verifier::external_body]
pub(crate) fn build_request(
    principal: cedar_policy::EntityUid,
    action: cedar_policy::EntityUid,
    resource: cedar_policy::EntityUid,
    context: cedar_policy::Context,
) -> (r: Option<cedar_policy::Request>)
    ensures
        r is Some,
{
    cedar_policy::Request::new(principal, action, resource, context, None).ok()
}

/// Relies on `cedar_policy::Authorizer::is_authorized`: the authorization
/// oracle, invoked exactly once per call, synchronous and side-effect-free.
#[verifier::external_body]
pub(crate) fn execute_query(
    request: &cedar_policy::Request,
    policies: &cedar_policy::PolicySet,
    entities: &cedar_policy::Entities,
) -> (r: cedar_policy::Response) {
    let authorizer = cedar_policy::Authorizer::new();
    authorizer.is_authorized(request, policies, entities)
}

/// Relies on `cedar_policy::PolicySet::policies`, `Policy::id` and
/// `Policy::annotations`: hands out each policy's identifier and annotation
/// pairs, in the set's iteration order. Identifiers are distinct because the
/// set keys its policies by identifier.
#[verifier::external_body]
pub(crate) fn policy_entries(ps: &cedar_policy::PolicySet) -> (r: Vec<
    (String, Vec<(String, String)>),
>)
    ensures
        r@.len() == policy_entries_of(*ps).len(),
        forall|i: int|
            0 <= i < r@.len() ==> #[trigger] r@[i].0@ == policy_entries_of(*ps)[i].0
                && r@[i].1.deep_view() == policy_entries_of(*ps)[i].1,
        forall|i: int, j: int|
            0 <= i < j < r@.len() ==> #[trigger] r@[i].0@ != #[trigger] r@[j].0@,
{
    ps.policies()
        .map(|p| {
            (
                p.id().to_string(),
                p.annotations().map(|(k, v)| (k.to_string(), v.to_string())).collect(),
            )
        })
        .collect()
}

/// Relies on `cedar_policy::Diagnostics::reason`: hands out the reason set's
/// identifiers. The set iterates in no promised order, so only membership and
/// distinctness are stated.
#[verifier::external_body]
pub(crate) fn reason_ids(resp: &cedar_policy::Response) -> (r: Vec<String>)
    ensures
        r.deep_view().to_set() == reasons_of(*resp),
        r.deep_view().no_duplicates(),
{
    resp.diagnostics().reason().map(|id| id.to_string()).collect()
}

/// Relies on `cedar_policy::Diagnostics::errors`: hands out the evaluation
/// error messages, in the response's own order.
#[verifier::external_body]
pub(crate) fn response_errors(resp: &cedar_policy::Response) -> (r: Vec<String>)
    ensures
        r.deep_view() == errors_of(*resp),
{
    resp.diagnostics().errors().map(|e| e.to_string()).collect()
}

/// Relies on `cedar_policy::Response::decision`: tells the two decision
/// variants apart.
#[verifier::external_body]
pub(crate) fn decision_is_allow(resp: &cedar_policy::Response) -> (r: bool)
    ensures
        r == response_allows(*resp),
{
    match resp.decision() {
        cedar_policy::Decision::Allow => true,
        cedar_policy::Decision::Deny => false,
    }
}

/// Relies on `cedar_policy::SchemaFragment::from_json_str`: parses one schema
/// fragment from JSON text; the parsed fragment depends on the text alone.
/// The error case carries the parser's own message.
#[verifier::external_body]
pub(crate) fn parse_schema_fragment(s: &str) -> (r: Result<cedar_policy::SchemaFragment, String>)
    ensures
        r is Ok <==> schema_fragment_of(s@) is Some,
        r matches Ok(f) ==> schema_fragment_of(s@) == Some(f),
{
    cedar_policy::SchemaFragment::from_json_str(s).map_err(|e| e.to_string())
}

/// Relies on `cedar_policy::Schema::from_schema_fragments`: merges the parsed
/// fragments into one schema; the merge is the engine's rule and depends on
/// the fragments alone. The error case carries the engine's own message.
#[verifier::external_body]
pub(crate) fn compose_schema(frags: Vec<cedar_policy::SchemaFragment>) -> (r: Result<
    cedar_policy::Schema,
    String,
>)
    ensures
        r is Ok <==> schema_merge_of(frags@) is Some,
        r matches Ok(s) ==> schema_merge_of(frags@) == Some(s),
{
    cedar_policy::Schema::from_schema_fragments(frags).map_err(|e| e.to_string())
}

/// Relies on `cedar_policy::Validator::new`: builds the validator holding the
/// given schema.
#[verifier::external_body]
pub(crate) fn validator_for(schema: cedar_policy::Schema) -> (r: cedar_policy::Validator)
    ensures
        r == validator_of(schema),
{
    cedar_policy::Validator::new(schema)
}

/// Relies on `cedar_policy::Validator::validate` in the default mode: the
/// errors it reports depend on the validator and the set alone, and every
/// one comes from some policy or template of the set, so a set with no
/// policies and no templates yields no errors.
#[verifier::external_body]
pub(crate) fn run_validation(v: &cedar_policy::Validator, ps: &cedar_policy::PolicySet) -> (r:
    cedar_policy::ValidationResult)
    ensures
        validation_messages_of(r) == validation_outcome_of(*v, *ps),
        policy_entries_of(*ps).len() == 0 && template_count_of(*ps) == 0
            ==> validation_messages_of(r).len() == 0,
{
    v.validate(ps, cedar_policy::ValidationMode::default())
}

/// Relies on `cedar_policy::ValidationResult::validation_passed`: true
/// exactly when the result holds no errors.
#[verifier::external_body]
pub(crate) fn validation_passed(vr: &cedar_policy::ValidationResult) -> (r: bool)
    ensures
        r == (validation_messages_of(*vr).len() == 0),
{
    vr.validation_passed()
}

/// Relies on `cedar_policy::ValidationResult::validation_errors`: hands out
/// every error's message, in the result's own order, never only the first.
#[verifier::external_body]
pub(crate) fn validation_error_messages(vr: &cedar_policy::ValidationResult) -> (r: Vec<String>)
    ensures
        r.deep_view() == validation_messages_of(*vr),
{
    vr.validation_errors().map(|e| e.to_string()).collect()
}

/// Relies on `serde_json::from_str`: parses text into a JSON value; the
/// value depends on the text alone.
#[verifier::external_body]
pub(crate) fn parse_json_value(s: &str) -> (r: Option<serde_json::Value>)
    ensures
        r is Some <==> json_value_of(s@) is Some,
        r matches Some(v) ==> json_value_of(s@) == Some(v),
{
    serde_json::from_str(s).ok()
}

/// Relies on `serde_json::Value::get` and `Value::as_str`: reads a top-level
/// string field of a JSON document, `None` when the field is absent or not a
/// string.
#[verifier::external_body]
pub(crate) fn get_field_str(v: &serde_json::Value, name: &str) -> (r: Option<String>)
    ensures
        r is Some <==> field_str_of(*v, name@) is Some,
        r matches Some(s) ==> field_str_of(*v, name@) == Some(s@),
{
    match v.get(name) {
        Some(f) => f.as_str().map(|s| s.to_string()),
        None => None,
    }
}

/// Relies on `serde_json::Value::get` and `Value::as_array`: reads a
/// top-level array field of a JSON document as the array's values.
#[verifier::external_body]
pub(crate) fn get_field_values(v: &serde_json::Value, name: &str) -> (r: Option<
    Vec<serde_json::Value>,
>)
    ensures
        r is Some <==> field_values_of(*v, name@) is Some,
        r matches Some(vs) ==> field_values_of(*v, name@) == Some(vs@),
{
    match v.get(name) {
        Some(f) => f.as_array().cloned(),
        None => None,
    }
}

/// Relies on `serde_json::Value::get`, `Value::as_array` and `Value::as_str`:
/// reads a top-level array field as strings, each non-string element read as
/// the empty string.
#[verifier::external_body]
pub(crate) fn get_field_str_list(v: &serde_json::Value, name: &str) -> (r: Option<Vec<String>>)
    ensures
        r is Some <==> field_str_list_of(*v, name@) is Some,
        r matches Some(vs) ==> field_str_list_of(*v, name@) == Some(vs.deep_view()),
{
    match v.get(name) {
        Some(f) => f.as_array().map(
            |arr| arr.iter().map(|x| x.as_str().unwrap_or("").to_string()).collect(),
        ),
        None => None,
    }
}

/// Relies on `cedar_policy::PolicySet::policies` and `Policy::to_json`:
/// converts each policy of the set to its structured (JSON) form, in the
/// set's iteration order, aborting on the first failure; the outcome depends
/// on the set alone, with one value per policy on success. The error case
/// carries the converter's own message; a set with no policies converts to
/// the empty list.
#[verifier::external_body]
pub(crate) fn policy_set_to_json_values(ps: &cedar_policy::PolicySet) -> (r: Result<
    Vec<serde_json::Value>,
    String,
>)
    ensures
        r is Ok <==> policy_jsons_of(*ps) is Some,
        r matches Ok(vs) ==> policy_jsons_of(*ps) == Some(vs@) && vs@.len() == policy_entries_of(
            *ps,
        ).len(),
        policy_entries_of(*ps).len() == 0 ==> r is Ok,
{
    ps.policies().map(|p| p.to_json().map_err(|e| e.to_string())).collect()
}

/// Relies on `cedar_policy::Policy::from_json` (with `PolicyId::from_str`,
/// which never fails, converting the identifier) and the policy's text
/// rendering: turns one structured rule into its textual form under the given
/// identifier; the text depends on the identifier and the value alone. The
/// error case carries the converter's own message.
#[verifier::external_body]
pub(crate) fn policy_from_json_value(id: &str, v: &serde_json::Value) -> (r: Result<
    String,
    String,
>)
    ensures
        r is Ok <==> policy_text_of(id@, *v) is Some,
        r matches Ok(t) ==> policy_text_of(id@, *v) == Some(t@),
{
    let pid = match cedar_policy::PolicyId::from_str(id) {
        Ok(pid) => pid,
        Err(_) => return Err(String::new()),
    };
    cedar_policy::Policy::from_json(Some(pid), v.clone()).map(|p| p.to_string()).map_err(
        |e| e.to_string(),
    )
}

/// Relies on `str::trim`: what it leaves depends on the text alone.
#[verifier::external_body]
pub(crate) fn trim_str(s: &str) -> (r: &str)
    ensures
        r@ == trim_of(s@),
{
    s.trim()
}

} // verus!

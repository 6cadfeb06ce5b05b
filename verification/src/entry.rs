//! Entry points over whole JSON payloads: each required field is extracted
//! with a `MissingField` error naming it, the context document is parsed
//! separately from the rest of the payload, and the appropriate component is
//! invoked. Every failure is an error value; nothing here aborts the host.

use vstd::prelude::*;

use crate::authz::authorized_report;
use crate::authz::builder_rejects;
use crate::authz::is_authorized;
use crate::cedar_api::field_str_list_of;
use crate::cedar_api::field_str_of;
use crate::cedar_api::field_values_of;
use crate::cedar_api::get_field_str;
use crate::cedar_api::get_field_str_list;
use crate::cedar_api::get_field_values;
use crate::cedar_api::json_value_of;
use crate::cedar_api::parse_json_value;
use crate::cedar_api::trim_of;
use crate::cedar_api::trim_str;
use crate::codec::batch_converts;
use crate::codec::batch_texts;
use crate::codec::from_json;
use crate::errors::EntryError;
use crate::report::IPolicyEnginePolicyResponse;
use crate::schema;
use crate::schema::validation_accepts;
use crate::strutil::join_with;

verus! {

/// Accepts an extracted field value, or names the missing field.
pub fn require_field(opt: Option<String>, field: &str) -> (r: Result<String, EntryError>)
    ensures
        opt matches Some(s) ==> r == Ok::<String, EntryError>(s),
        opt is None ==> (r matches Err(e) && e matches EntryError::MissingField(f) && f@
            == field@),
{
    match opt {
        Some(s) => Ok(s),
        None => Err(EntryError::MissingField(String::from_str(field))),
    }
}

/// Reads a required top-level string field of the payload: its value exactly
/// when the document holds it as a string, else `MissingField` naming it.
pub fn get_field(payload: &serde_json::Value, field: &str) -> (r: Result<String, EntryError>)
    ensures
        r is Ok <==> field_str_of(*payload, field@) is Some,
        r matches Ok(s) ==> field_str_of(*payload, field@) == Some(s@),
        r matches Err(e) ==> (e matches EntryError::MissingField(f) && f@ == field@),
{
    require_field(get_field_str(payload, field), field)
}

/// Reads a required top-level array-of-strings field of the payload: its
/// values exactly when the document holds the field as an array, else
/// `MissingField` naming it.
pub fn get_field_array(payload: &serde_json::Value, field: &str) -> (r: Result<
    Vec<String>,
    EntryError,
>)
    ensures
        r is Ok <==> field_str_list_of(*payload, field@) is Some,
        r matches Ok(vs) ==> field_str_list_of(*payload, field@) == Some(vs.deep_view()),
        r matches Err(e) ==> (e matches EntryError::MissingField(f) && f@ == field@),
{
    match get_field_str_list(payload, field) {
        Some(v) => Ok(v),
        None => Err(EntryError::MissingField(String::from_str(field))),
    }
}

/// Reads a required top-level array field of the payload as raw JSON values:
/// the values exactly when the document holds the field as an array, else
/// `MissingField` naming it.
pub fn get_field_array_json(payload: &serde_json::Value, field: &str) -> (r: Result<
    Vec<serde_json::Value>,
    EntryError,
>)
    ensures
        r is Ok <==> field_values_of(*payload, field@) is Some,
        r matches Ok(vs) ==> field_values_of(*payload, field@) == Some(vs@),
        r matches Err(e) ==> (e matches EntryError::MissingField(f) && f@ == field@),
{
    match get_field_values(payload, field) {
        Some(v) => Ok(v),
        None => Err(EntryError::MissingField(String::from_str(field))),
    }
}

/// The first of the six required fields that the payload does not hold as a
/// string, in the order they are read.
pub open spec fn first_missing_field(doc: serde_json::Value) -> Option<Seq<char>> {
    if field_str_of(doc, "principal"@) is None {
        Option::Some("principal"@)
    } else if field_str_of(doc, "action"@) is None {
        Option::Some("action"@)
    } else if field_str_of(doc, "resource"@) is None {
        Option::Some("resource"@)
    } else if field_str_of(doc, "policy"@) is None {
        Option::Some("policy"@)
    } else if field_str_of(doc, "entities"@) is None {
        Option::Some("entities"@)
    } else if field_str_of(doc, "context"@) is None {
        Option::Some("context"@)
    } else {
        Option::None
    }
}

/// The authorization entry point accepts the payload document outright: all
/// six fields present, the context field's text parses as JSON, and the
/// request builder rejects nothing.
pub open spec fn authorize_accepts(doc: serde_json::Value) -> bool {
    &&& first_missing_field(doc) is None
    &&& json_value_of(field_str_of(doc, "context"@)->Some_0) is Some
    &&& !builder_rejects(
        field_str_of(doc, "principal"@)->Some_0,
        field_str_of(doc, "action"@)->Some_0,
        field_str_of(doc, "resource"@)->Some_0,
        field_str_of(doc, "policy"@)->Some_0,
        field_str_of(doc, "entities"@)->Some_0,
        json_value_of(field_str_of(doc, "context"@)->Some_0)->Some_0,
    )
}

/// The authorization entry point: the payload must be a JSON object with the
/// string fields `principal`, `action`, `resource`, `policy`, `entities` and
/// `context` (itself a JSON-encoded document). A payload that is not JSON is
/// `MalformedPayload`; the first absent field is `MissingField` naming it; a
/// context field holding invalid JSON is `MalformedContext`, distinct from
/// `InvalidPayload`; a payload the request builder rejects is the flat
/// `InvalidPayload`; on every other payload the call succeeds with the
/// formatted report over the payload's policy text.
pub fn authorize(payload: &str) -> (r: Result<IPolicyEnginePolicyResponse, EntryError>)
    ensures
        json_value_of(payload@) is None ==> r == Err::<
            IPolicyEnginePolicyResponse,
            EntryError,
        >(EntryError::MalformedPayload),
        r is Ok <==> (json_value_of(payload@) matches Some(doc) && authorize_accepts(doc)),
        json_value_of(payload@) matches Some(doc) ==> {
            &&& (first_missing_field(doc) matches Some(f) ==> (r matches Err(e) && e
                matches EntryError::MissingField(name) && name@ == f))
            &&& (first_missing_field(doc) is None && json_value_of(
                field_str_of(doc, "context"@)->Some_0,
            ) is None ==> r == Err::<IPolicyEnginePolicyResponse, EntryError>(
                EntryError::MalformedContext,
            ))
            &&& (!authorize_accepts(doc) && first_missing_field(doc) is None && json_value_of(
                field_str_of(doc, "context"@)->Some_0,
            ) is Some ==> r == Err::<IPolicyEnginePolicyResponse, EntryError>(
                EntryError::InvalidPayload,
            ))
        },
        r matches Ok(rep) ==> (json_value_of(payload@) matches Some(doc) && authorized_report(
            rep,
            field_str_of(doc, "policy"@)->Some_0,
        )),
{
    let payload_value = match parse_json_value(payload) {
        Some(v) => v,
        None => return Err(EntryError::MalformedPayload),
    };
    let principal = match get_field(&payload_value, "principal") {
        Ok(s) => s,
        Err(e) => return Err(e),
    };
    let action = match get_field(&payload_value, "action") {
        Ok(s) => s,
        Err(e) => return Err(e),
    };
    let resource = match get_field(&payload_value, "resource") {
        Ok(s) => s,
        Err(e) => return Err(e),
    };
    let policy = match get_field(&payload_value, "policy") {
        Ok(s) => s,
        Err(e) => return Err(e),
    };
    let entities = match get_field(&payload_value, "entities") {
        Ok(s) => s,
        Err(e) => return Err(e),
    };
    let context = match get_field(&payload_value, "context") {
        Ok(s) => s,
        Err(e) => return Err(e),
    };
    let context_value = match parse_json_value(context.as_str()) {
        Some(v) => v,
        None => return Err(EntryError::MalformedContext),
    };
    match is_authorized(
        principal.as_str(),
        action.as_str(),
        resource.as_str(),
        policy.as_str(),
        entities.as_str(),
        &context_value,
    ) {
        Ok(rep) => Ok(rep),
        Err(_) => Err(EntryError::InvalidPayload),
    }
}

/// The validation entry point accepts the payload document outright: the
/// `policy` string field and the `additional_schema_fragments` array field
/// are present, the policy text is not blank, and the whole validation
/// pipeline accepts it.
pub open spec fn validate_accepts(doc: serde_json::Value) -> bool {
    &&& field_str_of(doc, "policy"@) is Some
    &&& field_str_list_of(doc, "additional_schema_fragments"@) is Some
    &&& trim_of(field_str_of(doc, "policy"@)->Some_0).len() > 0
    &&& validation_accepts(
        field_str_of(doc, "policy"@)->Some_0,
        field_str_list_of(doc, "additional_schema_fragments"@)->Some_0,
    )
}

/// The validation entry point: the payload must be a JSON object with the
/// string field `policy` and the array field `additional_schema_fragments`.
/// A blank policy text is rejected before validation; otherwise the schema
/// is composed and the policy set validated, a failure carrying the
/// composer's or validator's full message.
pub fn validate_policy(payload: &str) -> (r: Result<(), EntryError>)
    ensures
        json_value_of(payload@) is None ==> r == Err::<(), EntryError>(EntryError::MalformedPayload),
        r is Ok <==> (json_value_of(payload@) matches Some(doc) && validate_accepts(doc)),
        json_value_of(payload@) matches Some(doc) ==> {
            &&& (field_str_of(doc, "policy"@) is None ==> (r matches Err(e) && e
                matches EntryError::MissingField(f) && f@ == "policy"@))
            &&& (field_str_of(doc, "policy"@) is Some && field_str_list_of(
                doc,
                "additional_schema_fragments"@,
            ) is None ==> (r matches Err(e) && e matches EntryError::MissingField(f) && f@
                == "additional_schema_fragments"@))
            &&& (field_str_of(doc, "policy"@) is Some && field_str_list_of(
                doc,
                "additional_schema_fragments"@,
            ) is Some && trim_of(field_str_of(doc, "policy"@)->Some_0).len() == 0 ==> r == Err::<
                (),
                EntryError,
            >(EntryError::InvalidPayload))
            &&& (r matches Err(e) ==> e matches EntryError::Validate(_) ==> e
                matches EntryError::Validate(ve) && (ve
                matches crate::errors::ValidateError::ValidationError(m) ==> m@ == join_with(
                schema::validation_messages_for(
                    field_str_of(doc, "policy"@)->Some_0,
                    field_str_list_of(doc, "additional_schema_fragments"@)->Some_0,
                ),
                "\n "@,
            )))
        },
{
    let payload_value = match parse_json_value(payload) {
        Some(v) => v,
        None => return Err(EntryError::MalformedPayload),
    };
    let policy = match get_field(&payload_value, "policy") {
        Ok(s) => s,
        Err(e) => return Err(e),
    };
    let fragments = match get_field_array(&payload_value, "additional_schema_fragments") {
        Ok(v) => v,
        Err(e) => return Err(e),
    };
    if trim_str(policy.as_str()).is_empty() {
        return Err(EntryError::InvalidPayload);
    }
    let ghost frag_texts = field_str_list_of(
        json_value_of(payload@)->Some_0,
        "additional_schema_fragments"@,
    )->Some_0;
    let mut fragment_refs: Vec<&str> = Vec::new();
    let mut i: usize = 0;
    while i < fragments.len()
        invariant
            i <= fragments.len(),
            frag_texts == fragments.deep_view(),
            fragment_refs@.len() == i,
            forall|k: int| 0 <= k < i ==> (#[trigger] fragment_refs@[k])@ == frag_texts[k],
        decreases fragments.len() - i,
    {
        fragment_refs.push(fragments[i].as_str());
        i = i + 1;
    }
    proof {
        assert(schema::frag_texts_of(Some(fragment_refs)) =~~= frag_texts);
    }
    match schema::validate_policy(policy.as_str(), Some(fragment_refs)) {
        Ok(_) => Ok(()),
        Err(e) => Err(EntryError::Validate(e)),
    }
}

/// The structured-to-text entry point: the payload must be a JSON object
/// with the array field `policies`; the rules are renumbered `policy0`,
/// `policy1`, … and serialized to one newline-joined policy-set text.
pub fn policy_from_json(payload: &str) -> (r: Result<String, EntryError>)
    ensures
        json_value_of(payload@) is None ==> r == Err::<String, EntryError>(
            EntryError::MalformedPayload,
        ),
        r is Ok <==> (json_value_of(payload@) matches Some(doc) && field_values_of(
            doc,
            "policies"@,
        ) matches Some(vals) && batch_converts(vals)),
        json_value_of(payload@) matches Some(doc) ==> {
            &&& (field_values_of(doc, "policies"@) is None ==> (r matches Err(e) && e
                matches EntryError::MissingField(f) && f@ == "policies"@))
            &&& (r matches Err(e) ==> field_values_of(doc, "policies"@) is Some ==> (e
                matches EntryError::Codec(ce) && ce is ConversionError))
        },
        r matches Ok(text) ==> (json_value_of(payload@) matches Some(doc) && field_values_of(
            doc,
            "policies"@,
        ) matches Some(vals) && text@ == join_with(batch_texts(vals), "\n"@)),
{
    let payload_value = match parse_json_value(payload) {
        Some(v) => v,
        None => return Err(EntryError::MalformedPayload),
    };
    let policies = match get_field_array_json(&payload_value, "policies") {
        Ok(v) => v,
        Err(e) => return Err(e),
    };
    match from_json(policies) {
        Ok(text) => Ok(text),
        Err(e) => Err(EntryError::Codec(e)),
    }
}

} // verus!

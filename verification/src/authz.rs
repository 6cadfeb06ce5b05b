//! The request builder and decision path: strict validation of the five
//! identity/query fields plus the context, assembly of the authorization
//! query, one oracle call, and the formatted report.

use vstd::prelude::*;

use crate::cedar_api::build_request;
use crate::cedar_api::context_ok;
use crate::cedar_api::entities_ok;
use crate::cedar_api::entity_uid_ok;
use crate::cedar_api::errors_of;
use crate::cedar_api::execute_query;
use crate::cedar_api::parse_context_value;
use crate::cedar_api::parse_entities;
use crate::cedar_api::parse_entity_uid;
use crate::cedar_api::parse_policy_set;
use crate::cedar_api::parsed_policy_set_of;
use crate::cedar_api::policy_entries;
use crate::cedar_api::policy_entries_of;
use crate::cedar_api::reasons_of;
use crate::cedar_api::response_allows;
use crate::cedar_api::trim_of;
use crate::cedar_api::trim_str;
use crate::errors::MyError;
use crate::report::format_answer;
use crate::report::report_ids_distinct;
use crate::report::report_matches;
use crate::report::IPolicyEnginePolicyResponse;

verus! {

/// Any of the five textual fields is blank once trimmed.
pub open spec fn some_field_blank(
    principal: Seq<char>,
    action: Seq<char>,
    resource: Seq<char>,
    policy: Seq<char>,
    entities: Seq<char>,
) -> bool {
    ||| trim_of(principal).len() == 0
    ||| trim_of(action).len() == 0
    ||| trim_of(resource).len() == 0
    ||| trim_of(policy).len() == 0
    ||| trim_of(entities).len() == 0
}

/// The request builder rejects the inputs: a field is blank once trimmed,
/// one of the three entity references, the entity collection, or the context
/// document fails to parse, or the policy text does not parse to a non-empty
/// set.
pub open spec fn builder_rejects(
    principal: Seq<char>,
    action: Seq<char>,
    resource: Seq<char>,
    policy: Seq<char>,
    entities: Seq<char>,
    context: serde_json::Value,
) -> bool {
    ||| some_field_blank(principal, action, resource, policy, entities)
    ||| !entity_uid_ok(principal)
    ||| !entity_uid_ok(action)
    ||| !entity_uid_ok(resource)
    ||| !entities_ok(entities)
    ||| !context_ok(context)
    ||| (match parsed_policy_set_of(policy) {
        Option::None => true,
        Option::Some(ps) => policy_entries_of(ps).len() == 0,
    })
}

/// The report is the faithful formatting of one oracle answer over the set
/// that the policy text parses to.
pub open spec fn authorized_report(rep: IPolicyEnginePolicyResponse, policy: Seq<char>) -> bool {
    match parsed_policy_set_of(policy) {
        Option::None => false,
        Option::Some(ps) => {
            &&& policy_entries_of(ps).len() > 0
            &&& report_ids_distinct(rep)
            &&& exists|resp: cedar_policy::Response|
                report_matches(
                    rep,
                    policy_entries_of(ps),
                    #[trigger] reasons_of(resp),
                    response_allows(resp),
                    errors_of(resp),
                )
        },
    }
}

/// Builds the authorization query from the raw fields, invokes the oracle
/// exactly once, and formats the full decision report.
///
/// A field that is blank after trimming is rejected before any parse is
/// attempted; a field that fails to parse is rejected with the same flat
/// `InvalidPayload`, without telling the caller which field was at fault —
/// and those are the only rejections: on every other input the call
/// succeeds, with a report that covers every policy of the parsed set, in
/// order, reflecting exactly one oracle answer's reason set, decision and
/// error list.
pub fn is_authorized(
    principal: &str,
    action: &str,
    resource: &str,
    policy: &str,
    entities: &str,
    context: &serde_json::Value,
) -> (r: Result<IPolicyEnginePolicyResponse, MyError>)
    ensures
        r is Ok <==> !builder_rejects(principal@, action@, resource@, policy@, entities@, *context),
        r is Err ==> r == Err::<IPolicyEnginePolicyResponse, MyError>(MyError::InvalidPayload),
        r matches Ok(rep) ==> authorized_report(rep, policy@),
{
    if trim_str(principal).is_empty() || trim_str(action).is_empty() || trim_str(
        resource,
    ).is_empty() || trim_str(policy).is_empty() || trim_str(entities).is_empty() {
        return Err(MyError::InvalidPayload);
    }
    let p = match parse_entity_uid(principal) {
        Some(p) => p,
        None => return Err(MyError::InvalidPayload),
    };
    let a = match parse_entity_uid(action) {
        Some(a) => a,
        None => return Err(MyError::InvalidPayload),
    };
    let res = match parse_entity_uid(resource) {
        Some(res) => res,
        None => return Err(MyError::InvalidPayload),
    };
    let ent = match parse_entities(entities) {
        Some(ent) => ent,
        None => return Err(MyError::InvalidPayload),
    };
    let cont = match parse_context_value(context) {
        Some(cont) => cont,
        None => return Err(MyError::InvalidPayload),
    };
    let policy_set = match parse_policy_set(policy) {
        Ok(ps) => ps,
        Err(_) => return Err(MyError::InvalidPayload),
    };
    let entries = policy_entries(&policy_set);
    if entries.len() == 0 {
        return Err(MyError::InvalidPayload);
    }
    let request = match build_request(p, a, res, cont) {
        Some(q) => q,
        None => {
            proof {
                assert(false);
            }
            return Err(MyError::InvalidPayload);
        },
    };
    let ans = execute_query(&request, &policy_set, &ent);
    match format_answer(&ans, &policy_set) {
        Ok(rep) => {
            proof {
                assert(policy_entries_of(policy_set).len() > 0);
                assert(report_matches(
                    rep,
                    policy_entries_of(policy_set),
                    reasons_of(ans),
                    response_allows(ans),
                    errors_of(ans),
                ));
            }
            Ok(rep)
        },
        Err(_) => {
            proof {
                assert(false);
            }
            Err(MyError::InvalidPayload)
        },
    }
}

} // verus!

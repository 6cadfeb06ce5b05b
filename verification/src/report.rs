//! The decision report: for every policy of the input set — not only those
//! that fired — its identifier, its full annotation mapping, and whether it
//! contributed to the decision, beside the overall decision and the
//! evaluation error messages.

use vstd::prelude::*;

use crate::cedar_api::decision_is_allow;
use crate::cedar_api::errors_of;
use crate::cedar_api::policy_entries;
use crate::cedar_api::policy_entries_of;
use crate::cedar_api::reason_ids;
use crate::cedar_api::reasons_of;
use crate::cedar_api::response_allows;
use crate::cedar_api::response_errors;
use crate::errors::MyError;

verus! {

/// The overall decision, as a two-variant enumeration (not a boolean), open
/// to further outcomes.
#[derive(Debug, Clone, PartialEq, Eq)]
pub enum PolicyDecision {
    Allow,
    Deny,
}

/// One policy's entry in the report: its identifier, whether it contributed
/// to the decision, and every annotation declared on it.
#[derive(Debug, Clone, PartialEq, Eq)]
pub struct IPolicyStatementResult {
    pub policy_id: String,
    pub invoked: bool,
    pub annotations: Vec<(String, String)>,
}

/// The complete decision report handed back to the caller.
#[derive(Debug, Clone, PartialEq, Eq)]
pub struct IPolicyEnginePolicyResponse {
    pub reasons: Vec<IPolicyStatementResult>,
    pub decision: PolicyDecision,
    pub errors: Vec<String>,
}

/// The report is exhaustive and faithful: one entry per policy entry, in
/// order, each carrying that policy's identifier and full annotations, with
/// `invoked` true exactly when the identifier lies in the reason set; the
/// decision mirrors `allow` and the error list is `errs` unchanged.
pub open spec fn report_matches(
    r: IPolicyEnginePolicyResponse,
    entries: Seq<(Seq<char>, Seq<(Seq<char>, Seq<char>)>)>,
    reason_set: Set<Seq<char>>,
    allow: bool,
    errs: Seq<Seq<char>>,
) -> bool {
    &&& r.reasons@.len() == entries.len()
    &&& (forall|i: int|
        0 <= i < entries.len() ==> {
            &&& (#[trigger] r.reasons@[i]).policy_id@ == entries[i].0
            &&& r.reasons@[i].invoked == reason_set.contains(entries[i].0)
            &&& r.reasons@[i].annotations.deep_view() == entries[i].1
        })
    &&& (r.decision is Allow) == allow
    &&& r.errors.deep_view() == errs
}

/// No policy identifier appears twice among the report's entries.
pub open spec fn report_ids_distinct(r: IPolicyEnginePolicyResponse) -> bool {
    forall|i: int, j: int|
        0 <= i < j < r.reasons@.len() ==> (#[trigger] r.reasons@[i]).policy_id@ != (
        #[trigger] r.reasons@[j]).policy_id@
}

fn contains_string(v: &Vec<String>, s: &String) -> (r: bool)
    ensures
        r == v.deep_view().contains(s@),
{
    let mut j: usize = 0;
    while j < v.len()
        invariant
            j <= v.len(),
            forall|k: int| 0 <= k < j ==> v.deep_view()[k] != s@,
        decreases v.len() - j,
    {
        if v[j].eq(s) {
            assert(v.deep_view()[j as int] == s@);
            return true;
        }
        j = j + 1;
    }
    assert(forall|k: int| 0 <= k < v.deep_view().len() ==> v.deep_view()[k] != s@);
    false
}

fn clone_pairs(pairs: &Vec<(String, String)>) -> (r: Vec<(String, String)>)
    ensures
        r.deep_view() == pairs.deep_view(),
{
    let mut r: Vec<(String, String)> = Vec::new();
    let mut j: usize = 0;
    while j < pairs.len()
        invariant
            j <= pairs.len(),
            r@.len() == j,
            forall|m: int|
                0 <= m < j ==> (#[trigger] r@[m]).0 == pairs@[m].0 && r@[m].1 == pairs@[m].1,
        decreases pairs.len() - j,
    {
        let k = pairs[j].0.clone();
        let v = pairs[j].1.clone();
        r.push((k, v));
        j = j + 1;
    }
    proof {
        assert forall|m: int| 0 <= m < r@.len() implies r.deep_view()[m] == pairs.deep_view()[m] by {
            assert(r.deep_view()[m] == r@[m].deep_view());
            assert(pairs.deep_view()[m] == pairs@[m].deep_view());
        }
        assert(r.deep_view() =~= pairs.deep_view());
    }
    r
}

/// Builds the report from plain data: the per-policy entries in order, the
/// reason identifiers, the decision flag, and the evaluation error messages.
pub fn build_report(
    entries: &Vec<(String, Vec<(String, String)>)>,
    reason_list: &Vec<String>,
    allow: bool,
    errors: Vec<String>,
) -> (r: IPolicyEnginePolicyResponse)
    ensures
        report_matches(
            r,
            entries.deep_view(),
            reason_list.deep_view().to_set(),
            allow,
            errors.deep_view(),
        ),
{
    let mut reasons: Vec<IPolicyStatementResult> = Vec::new();
    let mut i: usize = 0;
    while i < entries.len()
        invariant
            i <= entries.len(),
            reasons@.len() == i,
            forall|k: int|
                0 <= k < i ==> {
                    &&& (#[trigger] reasons@[k]).policy_id@ == entries.deep_view()[k].0
                    &&& reasons@[k].invoked == reason_list.deep_view().to_set().contains(
                        entries.deep_view()[k].0,
                    )
                    &&& reasons@[k].annotations.deep_view() == entries.deep_view()[k].1
                },
        decreases entries.len() - i,
    {
        let invoked = contains_string(reason_list, &entries[i].0);
        proof {
            assert(reason_list.deep_view().to_set().contains(entries@[i as int].0@)
                == reason_list.deep_view().contains(entries@[i as int].0@));
        }
        let entry = IPolicyStatementResult {
            policy_id: entries[i].0.clone(),
            invoked,
            annotations: clone_pairs(&entries[i].1),
        };
        reasons.push(entry);
        i = i + 1;
    }
    let decision = if allow {
        PolicyDecision::Allow
    } else {
        PolicyDecision::Deny
    };
    IPolicyEnginePolicyResponse { reasons, decision, errors }
}

/// Formats the oracle's answer over the full policy set. One report entry per
/// policy of the set, in the set's order, `invoked` exactly when the policy's
/// identifier is in the diagnostic reason set, annotations preserved in full,
/// errors aggregated in order, and never a failure.
pub fn format_answer(
    response: &cedar_policy::Response,
    policies: &cedar_policy::PolicySet,
) -> (r: Result<IPolicyEnginePolicyResponse, MyError>)
    ensures
        r is Ok,
        r matches Ok(rep) ==> report_matches(
            rep,
            policy_entries_of(*policies),
            reasons_of(*response),
            response_allows(*response),
            errors_of(*response),
        ),
        r matches Ok(rep) ==> report_ids_distinct(rep),
{
    let entries = policy_entries(policies);
    let rids = reason_ids(response);
    let allow = decision_is_allow(response);
    let errs = response_errors(response);
    let report = build_report(&entries, &rids, allow, errs);
    proof {
        assert(entries.deep_view() =~~= policy_entries_of(*policies));
        assert forall|i: int, j: int| 0 <= i < j < report.reasons@.len() implies (
        #[trigger] report.reasons@[i]).policy_id@ != (#[trigger] report.reasons@[j]).policy_id@ by {
            assert(report.reasons@[i].policy_id@ == entries.deep_view()[i].0);
            assert(entries.deep_view()[i].0 == entries@[i].0@);
        }
    }
    Ok(report)
}

} // verus!

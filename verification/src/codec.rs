//! The policy codec: textual policy sets to ordered sequences of structured
//! (JSON) rule representations, and back. The reverse direction assigns each
//! rule a synthetic identifier `policy<N>` from its zero-based position and
//! joins the rule texts with single newlines; callers cannot round-trip
//! original identifiers through this path.

use vstd::prelude::*;

use crate::cedar_api::parse_policy_set;
use crate::cedar_api::parsed_policy_set_of;
use crate::cedar_api::policy_entries_of;
use crate::cedar_api::policy_from_json_value;
use crate::cedar_api::policy_jsons_of;
use crate::cedar_api::policy_set_to_json_values;
use crate::cedar_api::policy_text_of;
use crate::errors::CodecError;
use crate::strutil::join_strings;
use crate::strutil::join_with;
use crate::strutil::spec_policy_id;
use crate::strutil::synthetic_policy_id;

verus! {

/// Every element of the batch converts to a rule under its positional
/// synthetic identifier `policy<i>`.
pub open spec fn batch_converts(vals: Seq<serde_json::Value>) -> bool {
    forall|i: int|
        0 <= i < vals.len() ==> (#[trigger] policy_text_of(spec_policy_id(i as nat), vals[i]))
            is Some
}

/// The rule texts of the batch, one per element, each converted under its
/// positional synthetic identifier `policy<i>`.
pub open spec fn batch_texts(vals: Seq<serde_json::Value>) -> Seq<Seq<char>> {
    Seq::new(vals.len(), |i: int| policy_text_of(spec_policy_id(i as nat), vals[i])->Some_0)
}

/// Parses a policy set atomically and converts each rule to its structured
/// form, in the set's order: one structured value per rule of the set, and
/// success exactly when the text parses and every rule converts.
pub fn to_json(policy: &str) -> (r: Result<Vec<serde_json::Value>, CodecError>)
    ensures
        r is Ok <==> (parsed_policy_set_of(policy@) matches Some(ps) && policy_jsons_of(ps)
            is Some),
        parsed_policy_set_of(policy@) is None ==> r == Err::<
            Vec<serde_json::Value>,
            CodecError,
        >(CodecError::InvalidPayload),
        r matches Err(e) ==> (parsed_policy_set_of(policy@) is Some ==> e is ConversionError),
        r matches Ok(vs) ==> (parsed_policy_set_of(policy@) matches Some(ps) && policy_jsons_of(ps)
            == Some(vs@) && vs@.len() == policy_entries_of(ps).len()),
{
    let ps = match parse_policy_set(policy) {
        Ok(ps) => ps,
        Err(_) => return Err(CodecError::InvalidPayload),
    };
    match policy_set_to_json_values(&ps) {
        Ok(vs) => Ok(vs),
        Err(m) => Err(CodecError::ConversionError(m)),
    }
}

/// Converts an ordered sequence of structured rule representations back to
/// one policy-set text: the rule at position `i` is converted under the
/// synthetic identifier `policy<i>`, and the rule texts are joined with
/// single newlines. Success exactly when every element converts; any single
/// failure aborts the whole batch.
pub fn from_json(policies: Vec<serde_json::Value>) -> (r: Result<String, CodecError>)
    ensures
        r is Ok <==> batch_converts(policies@),
        r matches Err(e) ==> e is ConversionError,
        r matches Ok(text) ==> text@ == join_with(batch_texts(policies@), "\n"@),
{
    let mut texts: Vec<String> = Vec::new();
    let mut i: usize = 0;
    while i < policies.len()
        invariant
            i <= policies.len(),
            texts@.len() == i,
            forall|k: int|
                0 <= k < i ==> (#[trigger] policy_text_of(spec_policy_id(k as nat), policies@[k]))
                    is Some,
            forall|k: int|
                0 <= k < i ==> texts.deep_view()[k] == policy_text_of(
                    spec_policy_id(k as nat),
                    policies@[k],
                )->Some_0,
        decreases policies.len() - i,
    {
        let id = synthetic_policy_id(i as u64);
        let ghost ki: int = i as int;
        proof {
            assert(id@ == spec_policy_id(ki as nat));
        }
        match policy_from_json_value(id.as_str(), &policies[i]) {
            Ok(t) => {
                let ghost tv = t@;
                let ghost pre = texts.deep_view();
                texts.push(t);
                proof {
                    assert(policy_text_of(spec_policy_id(ki as nat), policies@[ki]) == Some(tv));
                    assert forall|k: int| 0 <= k < ki + 1 implies #[trigger] texts.deep_view()[k]
                        == policy_text_of(spec_policy_id(k as nat), policies@[k])->Some_0 by {
                        if k < ki {
                            assert(texts.deep_view()[k] == texts@[k].deep_view());
                            assert(pre[k] == texts@[k].deep_view());
                            assert(pre[k] == policy_text_of(
                                spec_policy_id(k as nat),
                                policies@[k],
                            )->Some_0);
                        } else {
                            assert(texts.deep_view()[ki] == tv);
                        }
                    }
                }
            },
            Err(m) => {
                proof {
                    assert(policy_text_of(spec_policy_id(ki as nat), policies@[ki]) is None);
                    assert(!batch_converts(policies@));
                }
                return Err(CodecError::ConversionError(m));
            },
        }
        i = i + 1;
    }
    let joined = join_strings(&texts, "\n");
    proof {
        assert(texts.deep_view() =~= batch_texts(policies@));
    }
    Ok(joined)
}

} // verus!

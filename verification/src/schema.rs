//! Schema composition and static policy validation: the fixed base schema
//! fragment is merged with caller-supplied fragments, and every rule of a
//! policy set is checked against the composed schema. On failure every
//! individual validation message is reported, joined, never only the first.

use vstd::prelude::*;

use crate::cedar_api::compose_schema;
use crate::cedar_api::parse_policy_set;
use crate::cedar_api::parse_schema_fragment;
use crate::cedar_api::parsed_policy_set_of;
use crate::cedar_api::policy_entries_of;
use crate::cedar_api::run_validation;
use crate::cedar_api::schema_fragment_of;
use crate::cedar_api::schema_merge_of;
use crate::cedar_api::template_count_of;
use crate::cedar_api::validation_error_messages;
use crate::cedar_api::validation_outcome_of;
use crate::cedar_api::validation_passed;
use crate::cedar_api::validator_for;
use crate::cedar_api::validator_of;
use crate::errors::ValidateError;
use crate::strutil::contains_seq;
use crate::strutil::join_strings;
use crate::strutil::join_with;
use crate::strutil::lemma_join_with_contains_each;

verus! {

/// The fixed base schema bundled with the bridge: an empty fragment that
/// declares nothing of its own and leaves the model to the caller-supplied
/// fragments merged on top of it. (It stands in for a bundled schema
/// document; the composition treats it as the mandatory first fragment.)
pub fn base_schema_text() -> (r: &'static str)
    ensures
        r@ == "{}"@,
{
    "{}"
}

/// The caller-supplied fragment texts, in order.
pub open spec fn frag_texts_of(additional: Option<Vec<&str>>) -> Seq<Seq<char>> {
    match additional {
        Option::None => Seq::empty(),
        Option::Some(v) => Seq::new(v@.len() as nat, |i: int| v@[i]@),
    }
}

/// Every fragment text parses.
pub open spec fn fragments_parse(frags: Seq<Seq<char>>) -> bool {
    forall|i: int| 0 <= i < frags.len() ==> (#[trigger] schema_fragment_of(frags[i])) is Some
}

/// The parsed fragment values handed to the merge: the base first, then each
/// caller fragment in order.
pub open spec fn parsed_fragment_values(frags: Seq<Seq<char>>) -> Seq<
    cedar_policy::SchemaFragment,
> {
    seq![schema_fragment_of("{}"@)->Some_0] + Seq::new(
        frags.len(),
        |i: int| schema_fragment_of(frags[i])->Some_0,
    )
}

/// The validator's messages for the given policy text and fragment texts,
/// meaningful when everything up to validation parses and merges.
pub open spec fn validation_messages_for(policy: Seq<char>, frags: Seq<Seq<char>>) -> Seq<
    Seq<char>,
> {
    validation_outcome_of(
        validator_of(schema_merge_of(parsed_fragment_values(frags))->Some_0),
        parsed_policy_set_of(policy)->Some_0,
    )
}

/// The whole validation pipeline accepts: the base and every caller fragment
/// parse, the fragments merge into a schema, the policy text parses, and
/// validation reports no message.
pub open spec fn validation_accepts(policy: Seq<char>, frags: Seq<Seq<char>>) -> bool {
    &&& schema_fragment_of("{}"@) is Some
    &&& fragments_parse(frags)
    &&& schema_merge_of(parsed_fragment_values(frags)) is Some
    &&& parsed_policy_set_of(policy) is Some
    &&& validation_messages_for(policy, frags).len() == 0
}

/// Statically validates an already-parsed policy set against a composed
/// schema: success exactly when the validator reports no message.
///
/// A set with no policies and no templates always passes. On failure the
/// error carries exactly the validator's messages, joined with a
/// newline-plus-space separator — each one still present, verbatim and
/// contiguously, in the joined text.
pub fn check_policies(validator: &cedar_policy::Validator, ps: &cedar_policy::PolicySet) -> (r:
    Result<(), ValidateError>)
    ensures
        r is Ok <==> validation_outcome_of(*validator, *ps).len() == 0,
        policy_entries_of(*ps).len() == 0 && template_count_of(*ps) == 0 ==> r is Ok,
        r matches Err(e) ==> (e matches ValidateError::ValidationError(m) && m@ == join_with(
            validation_outcome_of(*validator, *ps),
            "\n "@,
        ) && forall|i: int|
            0 <= i < validation_outcome_of(*validator, *ps).len() ==> contains_seq(
                m@,
                #[trigger] validation_outcome_of(*validator, *ps)[i],
            )),
{
    let vr = run_validation(validator, ps);
    if validation_passed(&vr) {
        Ok(())
    } else {
        let msgs = validation_error_messages(&vr);
        let joined = join_strings(&msgs, "\n ");
        proof {
            lemma_join_with_contains_each(msgs.deep_view(), "\n "@);
        }
        Err(ValidateError::ValidationError(joined))
    }
}

/// Composes the base schema with the caller's fragments and statically
/// validates the policy text against the result: success exactly when the
/// whole pipeline accepts.
///
/// Each fragment (the base included) must parse, the fragments must merge,
/// and the policy text must parse, each failure reported as a `ParseError`
/// carrying the engine's own message; a set that then fails validation is
/// reported with the full joined message list, never truncated to the first.
pub fn validate_policy(policy: &str, additional_schema_fragments: Option<Vec<&str>>) -> (r: Result<
    (),
    ValidateError,
>)
    ensures
        r is Ok <==> validation_accepts(policy@, frag_texts_of(additional_schema_fragments)),
        schema_fragment_of("{}"@) is None ==> (r matches Err(e) && e is ParseError),
        parsed_policy_set_of(policy@) is None ==> (r matches Err(e) && e is ParseError),
        !fragments_parse(frag_texts_of(additional_schema_fragments)) ==> (r matches Err(e) && e
            is ParseError),
        r matches Err(e) ==> e matches ValidateError::ValidationError(m) ==> (m@ == join_with(
            validation_messages_for(policy@, frag_texts_of(additional_schema_fragments)),
            "\n "@,
        ) && validation_messages_for(policy@, frag_texts_of(additional_schema_fragments)).len() > 0
            && forall|i: int|
            0 <= i < validation_messages_for(
                policy@,
                frag_texts_of(additional_schema_fragments),
            ).len() ==> contains_seq(
                m@,
                #[trigger] validation_messages_for(
                    policy@,
                    frag_texts_of(additional_schema_fragments),
                )[i],
            )),
{
    let ghost all_texts = frag_texts_of(additional_schema_fragments);
    let base = match parse_schema_fragment(base_schema_text()) {
        Ok(f) => f,
        Err(m) => return Err(ValidateError::ParseError(m)),
    };
    let mut fragments = Vec::new();
    fragments.push(base);
    match additional_schema_fragments {
        Some(texts) => {
            let mut i: usize = 0;
            while i < texts.len()
                invariant
                    i <= texts.len(),
                    all_texts == frag_texts_of(additional_schema_fragments),
                    all_texts == Seq::new(texts@.len() as nat, |k: int| texts@[k]@),
                    base == schema_fragment_of("{}"@)->Some_0,
                    schema_fragment_of("{}"@) is Some,
                    fragments@.len() == i + 1,
                    fragments@[0] == base,
                    forall|k: int|
                        0 <= k < i ==> (#[trigger] schema_fragment_of(all_texts[k])) is Some
                            && fragments@[k + 1] == schema_fragment_of(all_texts[k])->Some_0,
                decreases texts.len() - i,
            {
                let ghost t = all_texts[i as int];
                proof {
                    assert(t == texts@[i as int]@);
                }
                match parse_schema_fragment(texts[i]) {
                    Ok(f) => {
                        fragments.push(f);
                        proof {
                            assert(schema_fragment_of(t) == Some(f));
                        }
                    },
                    Err(m) => {
                        proof {
                            assert(schema_fragment_of(t) is None);
                            assert(!fragments_parse(all_texts));
                        }
                        return Err(ValidateError::ParseError(m));
                    },
                }
                i = i + 1;
            }
        },
        None => {},
    }
    proof {
        assert(fragments@ =~= parsed_fragment_values(all_texts));
        assert(fragments_parse(all_texts));
    }
    let schema = match compose_schema(fragments) {
        Ok(s) => s,
        Err(m) => return Err(ValidateError::ParseError(m)),
    };
    let validator = validator_for(schema);
    let ps = match parse_policy_set(policy) {
        Ok(ps) => ps,
        Err(m) => return Err(ValidateError::ParseError(m)),
    };
    check_policies(&validator, &ps)
}

} // verus!

//! Error types of the bridge. Every failure path returns one of these values;
//! nothing in the bridge panics or aborts the host.

use vstd::prelude::*;

verus! {

/// Failure of the authorization path: a required payload field is absent, or
/// a present field is empty or fails to parse against its expected grammar.
#[derive(Debug, Clone, PartialEq, Eq)]
pub enum MyError {
    MissingField(String),
    InvalidPayload,
}

impl MyError {
    /// A human-readable description, in place of a `Display` impl.
    pub fn message(&self) -> (r: String)
        ensures
            self is MissingField ==> r@ == "Missing field: "@ + self->MissingField_0@,
            self is InvalidPayload ==> r@ == "Invalid payload"@,
    {
        match self {
            MyError::MissingField(field) => {
                let head = String::from_str("Missing field: ");
                head.concat(field.as_str())
            },
            MyError::InvalidPayload => String::from_str("Invalid payload"),
        }
    }
}

/// Failure of schema composition or static validation: either some schema
/// fragment or the policy text itself did not parse, or one or more rules
/// failed validation. A `ValidationError` carries every individual message,
/// joined, never only the first.
#[derive(Debug, Clone, PartialEq, Eq)]
pub enum ValidateError {
    ParseError(String),
    ValidationError(String),
}

/// Failure of the policy codec: either the policy text did not parse
/// (`InvalidPayload`), or converting some rule between its textual and
/// structured form failed, aborting the whole batch (`ConversionError`).
#[derive(Debug, Clone, PartialEq, Eq)]
pub enum CodecError {
    InvalidPayload,
    ConversionError(String),
}

/// Failure at an entry point, where the caller's whole payload arrives as one
/// JSON document. A context field holding invalid JSON (`MalformedContext`)
/// is kept distinct from every other malformed-input case.
#[derive(Debug, Clone, PartialEq, Eq)]
pub enum EntryError {
    MalformedPayload,
    MissingField(String),
    MalformedContext,
    InvalidPayload,
    Validate(ValidateError),
    Codec(CodecError),
}

} // verus!

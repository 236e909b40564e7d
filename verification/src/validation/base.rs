//! Core validation types and traits.

use vstd::prelude::*;

verus! {

/// A failed validation: which field was at fault and why.
#[derive(Debug, Clone)]
pub struct ValidationError {
    pub field: String,
    pub message: String,
}

impl ValidationError {
    pub fn new(field: &str, message: &str) -> (r: Self)
        ensures
            r.field@ == field@,
            r.message@ == message@,
    {
        Self { field: field.to_owned(), message: message.to_owned() }
    }
}

pub type ValidationResult<T> = Result<T, ValidationError>;

/// A validator that reads a textual value and either yields a parsed value
/// (`None` when an optional field is absent) or reports why it is invalid.
pub trait Validator<T> {
    fn validate(&self, value: &str) -> ValidationResult<Option<T>>;
}

/// A schema that reads a textual value and either yields a parsed value or
/// reports why it is invalid.
pub trait Schema<T> {
    fn validate(&self, value: &str) -> ValidationResult<T>;
}

/// An enumeration with a fixed textual form for each variant, so that a
/// validator can parse it from a string.
pub trait EnumParse: Sized {
    /// Which variant, if any, a textual value names.
    spec fn text_variant(s: Seq<char>) -> Option<Self>;

    fn parse_value(s: &str) -> (r: Option<Self>)
        ensures
            r == Self::text_variant(s@),
    ;
}

} // verus!

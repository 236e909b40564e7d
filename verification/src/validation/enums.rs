//! A validator for enumerated values.

use vstd::prelude::*;

use super::base::{EnumParse, ValidationError, ValidationResult, Validator};

verus! {

/// Validates that a textual value names a variant of the enumeration `T`.
pub struct EnumValidator<T: EnumParse> {
    _phantom: std::marker::PhantomData<T>,
}

impl<T: EnumParse> EnumValidator<T> {
    pub fn new() -> (r: Self) {
        Self { _phantom: std::marker::PhantomData }
    }
}

impl<T: EnumParse> Validator<T> for EnumValidator<T> {
    fn validate(&self, value: &str) -> (r: ValidationResult<Option<T>>)
        ensures
            value@.len() == 0 ==> (r matches Err(e) && e.field@ == "enums"@ && e.message@
                == "Value is required"@),
            value@.len() > 0 ==> (match r {
                Ok(v) => T::text_variant(value@) matches Some(x) && v == Some(x),
                Err(e) => (T::text_variant(value@) is None) && e.field@ == "enums"@ && e.message@
                    == "Invalid enum value"@,
            }),
    {
        if value.is_empty() {
            return Err(ValidationError::new("enums", "Value is required"));
        }

        match T::parse_value(value) {
            Some(v) => Ok(Some(v)),
            None => Err(ValidationError::new("enums", "Invalid enum value")),
        }
    }
}

pub fn enums<T: EnumParse>() -> (r: EnumValidator<T>) {
    EnumValidator::new()
}

} // verus!

//! A schema for enumerated values.

use vstd::prelude::*;

use super::base::{EnumParse, Schema, ValidationError, ValidationResult};

verus! {

/// Schema returned by [`enum_value`]: validates that a textual value names
/// a variant of the enumeration `T`.
pub struct SimpleEnumSchema<T: EnumParse> {
    _phantom: std::marker::PhantomData<T>,
}

impl<T: EnumParse> Schema<T> for SimpleEnumSchema<T> {
    fn validate(&self, value: &str) -> (r: ValidationResult<T>)
        ensures
            value@.len() == 0 ==> (r matches Err(e) && e.field@ == "value"@ && e.message@
                == "Value is required"@),
            value@.len() > 0 ==> (match r {
                Ok(v) => T::text_variant(value@) == Some(v),
                Err(e) => (T::text_variant(value@) is None) && e.field@ == "value"@ && e.message@
                    == "Invalid enum value"@,
            }),
    {
        if value.is_empty() {
            return Err(ValidationError::new("value", "Value is required"));
        }

        match T::parse_value(value) {
            Some(v) => Ok(v),
            None => Err(ValidationError::new("value", "Invalid enum value")),
        }
    }
}

pub fn enum_value<T: EnumParse>() -> (r: SimpleEnumSchema<T>) {
    SimpleEnumSchema { _phantom: std::marker::PhantomData }
}

} // verus!

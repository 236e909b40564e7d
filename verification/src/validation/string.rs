//! A schema for free-form string fields.

use vstd::prelude::*;

use super::base::{Schema, ValidationError, ValidationResult};
use crate::strutil::contains_string;

verus! {

/// Validation rules for a string field.  `pattern` is carried but not yet
/// enforced.  Lengths are counted in characters, which on ASCII input is
/// the same as counting bytes.
pub struct StringSchema {
    pub required: bool,
    pub min_length: Option<usize>,
    pub max_length: Option<usize>,
    pub pattern: Option<String>,
    pub allowed_values: Option<Vec<String>>,
}

impl StringSchema {
    /// The value meets the minimum length, when one is set.
    pub open spec fn min_ok(&self, s: Seq<char>) -> bool {
        match self.min_length {
            Some(m) => s.len() >= m,
            None => true,
        }
    }

    /// The value meets the maximum length, when one is set.
    pub open spec fn max_ok(&self, s: Seq<char>) -> bool {
        match self.max_length {
            Some(m) => s.len() <= m,
            None => true,
        }
    }

    /// The value is among the allowed ones, when a list is set.
    pub open spec fn allowed_ok(&self, s: Seq<char>) -> bool {
        match self.allowed_values {
            Some(vs) => exists|i: int| 0 <= i < vs@.len() && #[trigger] vs@[i]@ == s,
            None => true,
        }
    }

    /// Whether a non-empty value satisfies every enforced rule of this
    /// schema.
    pub open spec fn accepts(&self, s: Seq<char>) -> bool {
        self.min_ok(s) && self.max_ok(s) && self.allowed_ok(s)
    }

    pub fn new() -> (r: Self)
        ensures
            r.required == true,
            r.min_length is None,
            r.max_length is None,
            r.pattern is None,
            r.allowed_values is None,
    {
        Self {
            required: true,
            min_length: None,
            max_length: None,
            pattern: None,
            allowed_values: None,
        }
    }

    pub fn optional(self) -> (r: Self)
        ensures
            r == (Self { required: false, ..self }),
    {
        Self { required: false, ..self }
    }

    pub fn min_length(self, length: usize) -> (r: Self)
        ensures
            r == (Self { min_length: Some(length), ..self }),
    {
        Self { min_length: Some(length), ..self }
    }

    pub fn max_length(self, length: usize) -> (r: Self)
        ensures
            r == (Self { max_length: Some(length), ..self }),
    {
        Self { max_length: Some(length), ..self }
    }

    pub fn pattern(self, pattern: &str) -> (r: Self)
        ensures
            r.required == self.required,
            r.min_length == self.min_length,
            r.max_length == self.max_length,
            r.pattern matches Some(p) && p@ == pattern@,
            r.allowed_values == self.allowed_values,
    {
        Self { pattern: Some(pattern.to_owned()), ..self }
    }

    pub fn allowed_values(self, values: Vec<&str>) -> (r: Self)
        ensures
            r.required == self.required,
            r.min_length == self.min_length,
            r.max_length == self.max_length,
            r.pattern == self.pattern,
            r.allowed_values matches Some(vs) && vs@.len() == values@.len()
                && forall|i: int| 0 <= i < vs@.len() ==> #[trigger] vs@[i]@ == values@[i]@,
    {
        let mut owned: Vec<String> = Vec::new();
        let mut i: usize = 0;
        while i < values.len()
            invariant
                i <= values@.len(),
                owned@.len() == i,
                forall|k: int| 0 <= k < i ==> #[trigger] owned@[k]@ == values@[k]@,
            decreases values@.len() - i,
        {
            owned.push(values[i].to_owned());
            i += 1;
        }
        Self { allowed_values: Some(owned), ..self }
    }
}

impl Schema<String> for StringSchema {
    fn validate(&self, value: &str) -> (r: ValidationResult<String>)
        ensures
            r matches Ok(v) ==> v@ == value@,
            value@.len() == 0 ==> (r is Ok <==> !self.required),
            value@.len() > 0 ==> (r is Ok <==> self.accepts(value@)),
            r matches Err(e) ==> e.field@ == "string"@ && e.message@ == (if value@.len() == 0 {
                "Field is required"@
            } else if !self.min_ok(value@) {
                "Value is shorter than the minimum length"@
            } else if !self.max_ok(value@) {
                "Value is longer than the maximum length"@
            } else {
                "Value is not among the allowed values"@
            }),
    {
        if value.is_empty() {
            if self.required {
                return Err(ValidationError::new("string", "Field is required"));
            } else {
                return Ok(value.to_owned());
            }
        }

        let n = value.unicode_len();

        if let Some(min_len) = self.min_length {
            if n < min_len {
                return Err(ValidationError::new("string", "Value is shorter than the minimum length"));
            }
        }

        if let Some(max_len) = self.max_length {
            if n > max_len {
                return Err(ValidationError::new("string", "Value is longer than the maximum length"));
            }
        }

        if let Some(ref allowed) = self.allowed_values {
            if !contains_string(allowed, value) {
                return Err(ValidationError::new("string", "Value is not among the allowed values"));
            }
        }

        Ok(value.to_owned())
    }
}

pub fn string() -> (r: StringSchema)
    ensures
        r.required == true,
        r.min_length is None,
        r.max_length is None,
        r.pattern is None,
        r.allowed_values is None,
{
    StringSchema::new()
}

} // verus!

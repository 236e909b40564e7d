//! A lighter-weight validation toolkit, kept alongside the stricter
//! schemas: the same builder style, but simpler checks.

use vstd::prelude::*;

use crate::strutil::contains_string;
use crate::validation::base::EnumParse;
use crate::validation::email::{count_char, count_occurrences, find_char, first_index, lemma_count_none, lemma_first_index};
use crate::validation::url::has_scheme_marker;

verus! {

/// A failed validation: which field was at fault and why.
#[derive(Debug, Clone)]
pub struct ValidationError {
    pub field: String,
    pub message: String,
}

impl ValidationError {
    pub fn new(field: &str, message: &str) -> (r: Self)
        ensures
            r.field@ == field@,
            r.message@ == message@,
    {
        Self { field: field.to_owned(), message: message.to_owned() }
    }
}

pub type ValidationResult<T> = Result<T, ValidationError>;

/// A schema that reads a textual value and either yields a parsed value or
/// reports why it is invalid.
pub trait Schema<T> {
    fn validate(&self, value: &str) -> ValidationResult<T>;
}

/// Validation rules for a string field.  `pattern` is carried but not yet
/// enforced.  Lengths are counted in characters, which on ASCII input is
/// the same as counting bytes.
pub struct StringSchema {
    pub required: bool,
    pub min_length: Option<usize>,
    pub max_length: Option<usize>,
    pub pattern: Option<String>,
    pub allowed_values: Option<Vec<String>>,
}

impl StringSchema {
    /// The value meets the minimum length, when one is set.
    pub open spec fn min_ok(&self, s: Seq<char>) -> bool {
        match self.min_length {
            Some(m) => s.len() >= m,
            None => true,
        }
    }

    /// The value meets the maximum length, when one is set.
    pub open spec fn max_ok(&self, s: Seq<char>) -> bool {
        match self.max_length {
            Some(m) => s.len() <= m,
            None => true,
        }
    }

    /// The value is among the allowed ones, when a list is set.
    pub open spec fn allowed_ok(&self, s: Seq<char>) -> bool {
        match self.allowed_values {
            Some(vs) => exists|i: int| 0 <= i < vs@.len() && #[trigger] vs@[i]@ == s,
            None => true,
        }
    }

    /// Whether a non-empty value satisfies every enforced rule of this
    /// schema.
    pub open spec fn accepts(&self, s: Seq<char>) -> bool {
        self.min_ok(s) && self.max_ok(s) && self.allowed_ok(s)
    }

    pub fn new() -> (r: Self)
        ensures
            r.required == true,
            r.min_length is None,
            r.max_length is None,
            r.pattern is None,
            r.allowed_values is None,
    {
        Self {
            required: true,
            min_length: None,
            max_length: None,
            pattern: None,
            allowed_values: None,
        }
    }

    pub fn optional(self) -> (r: Self)
        ensures
            r == (Self { required: false, ..self }),
    {
        Self { required: false, ..self }
    }

    pub fn min_length(self, length: usize) -> (r: Self)
        ensures
            r == (Self { min_length: Some(length), ..self }),
    {
        Self { min_length: Some(length), ..self }
    }

    pub fn max_length(self, length: usize) -> (r: Self)
        ensures
            r == (Self { max_length: Some(length), ..self }),
    {
        Self { max_length: Some(length), ..self }
    }

    pub fn pattern(self, pattern: &str) -> (r: Self)
        ensures
            r.required == self.required,
            r.min_length == self.min_length,
            r.max_length == self.max_length,
            r.pattern matches Some(p) && p@ == pattern@,
            r.allowed_values == self.allowed_values,
    {
        Self { pattern: Some(pattern.to_owned()), ..self }
    }

    pub fn allowed_values(self, values: Vec<&str>) -> (r: Self)
        ensures
            r.required == self.required,
            r.min_length == self.min_length,
            r.max_length == self.max_length,
            r.pattern == self.pattern,
            r.allowed_values matches Some(vs) && vs@.len() == values@.len()
                && forall|i: int| 0 <= i < vs@.len() ==> #[trigger] vs@[i]@ == values@[i]@,
    {
        let mut owned: Vec<String> = Vec::new();
        let mut i: usize = 0;
        while i < values.len()
            invariant
                i <= values@.len(),
                owned@.len() == i,
                forall|k: int| 0 <= k < i ==> #[trigger] owned@[k]@ == values@[k]@,
            decreases values@.len() - i,
        {
            owned.push(values[i].to_owned());
            i += 1;
        }
        Self { allowed_values: Some(owned), ..self }
    }
}

impl Schema<String> for StringSchema {
    fn validate(&self, value: &str) -> (r: ValidationResult<String>)
        ensures
            r matches Ok(v) ==> v@ == value@,
            value@.len() == 0 ==> (r is Ok <==> !self.required),
            value@.len() > 0 ==> (r is Ok <==> self.accepts(value@)),
            r matches Err(e) ==> e.field@ == "value"@ && e.message@ == (if value@.len() == 0 {
                "Field is required"@
            } else if !self.min_ok(value@) {
                "Value is shorter than the minimum length"@
            } else if !self.max_ok(value@) {
                "Value is longer than the maximum length"@
            } else {
                "Value is not among the allowed values"@
            }),
    {
        if value.is_empty() {
            if self.required {
                return Err(ValidationError::new("value", "Field is required"));
            } else {
                return Ok(value.to_owned());
            }
        }

        let n = value.unicode_len();

        if let Some(min_len) = self.min_length {
            if n < min_len {
                return Err(ValidationError::new("value", "Value is shorter than the minimum length"));
            }
        }

        if let Some(max_len) = self.max_length {
            if n > max_len {
                return Err(ValidationError::new("value", "Value is longer than the maximum length"));
            }
        }

        if let Some(ref allowed) = self.allowed_values {
            if !contains_string(allowed, value) {
                return Err(ValidationError::new("value", "Value is not among the allowed values"));
            }
        }

        Ok(value.to_owned())
    }
}

/// Validation rules for a URL field: it must carry a scheme separator.
pub struct UrlSchema {
    pub required: bool,
}

impl UrlSchema {
    pub fn new() -> (r: Self)
        ensures
            r.required == true,
    {
        Self { required: true }
    }

    pub fn optional(self) -> (r: Self)
        ensures
            r.required == false,
    {
        Self { required: false }
    }
}

impl Schema<String> for UrlSchema {
    fn validate(&self, value: &str) -> (r: ValidationResult<String>)
        ensures
            r matches Ok(v) ==> v@ == value@,
            value@.len() == 0 ==> (r is Ok <==> !self.required),
            value@.len() > 0 ==> (r is Ok <==> has_scheme_marker(value@)),
            r matches Err(e) ==> e.field@ == "value"@ && e.message@ == (if value@.len() == 0 {
                "URL is required"@
            } else {
                "Invalid URL format"@
            }),
    {
        if value.is_empty() {
            if self.required {
                return Err(ValidationError::new("value", "URL is required"));
            } else {
                return Ok(value.to_owned());
            }
        }

        let n = value.unicode_len();
        if n >= 3 {
            let mut i: usize = 0;
            while i < n - 2
                invariant
                    n == value@.len(),
                    3 <= n,
                    i <= n - 2,
                    forall|k: int|
                        0 <= k < i ==> !(#[trigger] value@[k] == ':' && value@[k + 1] == '/'
                            && value@[k + 2] == '/'),
                decreases n - i,
            {
                if value.get_char(i) == ':' && value.get_char(i + 1) == '/' && value.get_char(i + 2)
                    == '/' {
                    return Ok(value.to_owned());
                }
                i += 1;
            }
        }

        Err(ValidationError::new("value", "Invalid URL format"))
    }
}

/// A loose email shape: exactly one `@`, and at least one dot after it.
pub open spec fn loose_email_shape(s: Seq<char>) -> bool {
    &&& count_char(s, '@') == 1
    &&& first_index(s.skip(first_index(s, '@') + 1), '.') >= 0
}

/// Validation rules for an email field; checks only the coarse shape.
pub struct EmailSchema {
    pub required: bool,
}

impl EmailSchema {
    pub fn new() -> (r: Self)
        ensures
            r.required == true,
    {
        Self { required: true }
    }

    pub fn optional(self) -> (r: Self)
        ensures
            r.required == false,
    {
        Self { required: false }
    }
}

impl Schema<String> for EmailSchema {
    fn validate(&self, value: &str) -> (r: ValidationResult<String>)
        ensures
            r matches Ok(v) ==> v@ == value@,
            value@.len() == 0 ==> (r is Ok <==> !self.required),
            value@.len() > 0 ==> (r is Ok <==> loose_email_shape(value@)),
            r matches Err(e) ==> e.field@ == "value"@ && e.message@ == (if value@.len() == 0 {
                "Email is required"@
            } else if count_char(value@, '@') != 1 {
                "Invalid email format"@
            } else {
                "Invalid email domain"@
            }),
    {
        if value.is_empty() {
            if self.required {
                return Err(ValidationError::new("value", "Email is required"));
            } else {
                return Ok(value.to_owned());
            }
        }

        let at_count = count_occurrences(value, '@');
        if at_count != 1 {
            return Err(ValidationError::new("value", "Invalid email format"));
        }

        let at = match find_char(value, '@') {
            Some(a) => a,
            None => {
                proof {
                    lemma_first_index(value@, '@');
                    lemma_count_none(value@, '@');
                }
                return Err(ValidationError::new("value", "Invalid email format"));
            },
        };

        let n = value.unicode_len();
        proof {
            lemma_first_index(value@, '@');
        }
        let domain = value.substring_char(at + 1, n);
        proof {
            assert(domain@ =~= value@.skip(at + 1));
        }
        match find_char(domain, '.') {
            Some(_) => Ok(value.to_owned()),
            None => Err(ValidationError::new("value", "Invalid email domain")),
        }
    }
}

/// Validates that a textual value names a variant of the enumeration `T`.
pub struct SimpleEnumSchema<T: EnumParse> {
    _phantom: std::marker::PhantomData<T>,
}

impl<T: EnumParse> Schema<T> for SimpleEnumSchema<T> {
    fn validate(&self, value: &str) -> (r: ValidationResult<T>)
        ensures
            value@.len() == 0 ==> r is Err,
            value@.len() > 0 ==> (match r {
                Ok(v) => T::text_variant(value@) == Some(v),
                Err(_) => T::text_variant(value@) is None,
            }),
    {
        if value.is_empty() {
            return Err(ValidationError::new("value", "Value is required"));
        }

        match T::parse_value(value) {
            Some(v) => Ok(v),
            None => Err(ValidationError::new("value", "Invalid enum value")),
        }
    }
}

pub fn string() -> (r: StringSchema)
    ensures
        r.required == true,
        r.min_length is None,
        r.max_length is None,
        r.pattern is None,
        r.allowed_values is None,
{
    StringSchema::new()
}

pub fn url() -> (r: UrlSchema)
    ensures
        r.required == true,
{
    UrlSchema::new()
}

pub fn email() -> (r: EmailSchema)
    ensures
        r.required == true,
{
    EmailSchema::new()
}

pub fn enum_value<T: EnumParse>() -> (r: SimpleEnumSchema<T>) {
    SimpleEnumSchema { _phantom: std::marker::PhantomData }
}

} // verus!

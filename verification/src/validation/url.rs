//! A schema for URL fields.

use vstd::prelude::*;

use super::base::{ValidationError, ValidationResult, Validator};

verus! {

/// Whether the characters `"://"` occur somewhere in `s`.
pub open spec fn has_scheme_marker(s: Seq<char>) -> bool {
    exists|i: int|
        0 <= i && i + 2 < s.len() && #[trigger] s[i] == ':' && s[i + 1] == '/' && s[i + 2] == '/'
}

/// Validation rules for a URL field: it must carry a scheme separator.
pub struct UrlSchema {
    pub required: bool,
}

impl UrlSchema {
    pub fn new() -> (r: Self)
        ensures
            r.required == true,
    {
        Self { required: true }
    }

    pub fn optional(self) -> (r: Self)
        ensures
            r.required == false,
    {
        Self { required: false }
    }
}

impl Validator<String> for UrlSchema {
    fn validate(&self, value: &str) -> (r: ValidationResult<Option<String>>)
        ensures
            value@.len() == 0 && self.required ==> (r matches Err(e) && e.field@ == "url"@
                && e.message@ == "URL is required"@),
            value@.len() == 0 && !self.required ==> (r matches Ok(v) && v is None),
            value@.len() > 0 ==> (match r {
                Ok(v) => has_scheme_marker(value@) && (v matches Some(u) && u@ == value@),
                Err(e) => !has_scheme_marker(value@) && e.field@ == "value"@ && e.message@
                    == "Invalid URL format"@,
            }),
    {
        if value.is_empty() {
            if self.required {
                return Err(ValidationError::new("url", "URL is required"));
            } else {
                return Ok(None);
            }
        }

        let n = value.unicode_len();
        if n >= 3 {
            let mut i: usize = 0;
            while i < n - 2
                invariant
                    n == value@.len(),
                    3 <= n,
                    i <= n - 2,
                    forall|k: int|
                        0 <= k < i ==> !(#[trigger] value@[k] == ':' && value@[k + 1] == '/'
                            && value@[k + 2] == '/'),
                decreases n - i,
            {
                if value.get_char(i) == ':' && value.get_char(i + 1) == '/' && value.get_char(i + 2)
                    == '/' {
                    return Ok(Some(value.to_owned()));
                }
                i += 1;
            }
        }

        Err(ValidationError::new("value", "Invalid URL format"))
    }
}

pub fn url() -> (r: UrlSchema)
    ensures
        r.required == true,
{
    UrlSchema::new()
}

} // verus!

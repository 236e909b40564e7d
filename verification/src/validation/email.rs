//! A schema for email addresses: ASCII only, a single `@`, and RFC-style
//! restrictions on the local part and the domain labels.

use vstd::prelude::*;
use vstd::utf8::is_ascii_chars;

use super::base::{ValidationError, ValidationResult, Validator};

verus! {

/// ASCII letters and digits.
pub open spec fn is_ascii_alnum(c: char) -> bool {
    ('a' <= c && c <= 'z') || ('A' <= c && c <= 'Z') || ('0' <= c && c <= '9')
}

/// ASCII control characters.
pub open spec fn is_ascii_control(c: char) -> bool {
    c < ' ' || c == '\u{7f}'
}

/// Characters allowed in the local part of an address.
pub open spec fn allowed_local_char_spec(c: char) -> bool {
    is_ascii_alnum(c) || c == '.' || c == '-' || c == '_' || c == '+'
}

/// Characters allowed in the domain part of an address.
pub open spec fn allowed_domain_char_spec(c: char) -> bool {
    is_ascii_alnum(c) || c == '-' || c == '.'
}

/// Index of the first occurrence of `c` in `s`, or `-1` when absent.
pub open spec fn first_index(s: Seq<char>, c: char) -> int
    decreases s.len(),
{
    if s.len() == 0 {
        -1
    } else if s[0] == c {
        0
    } else {
        let r = first_index(s.drop_first(), c);
        if r < 0 {
            -1
        } else {
            r + 1
        }
    }
}

/// How often `c` occurs in `s`.
pub open spec fn count_char(s: Seq<char>, c: char) -> nat
    decreases s.len(),
{
    if s.len() == 0 {
        0
    } else {
        (if s[0] == c {
            1nat
        } else {
            0nat
        }) + count_char(s.drop_first(), c)
    }
}

pub proof fn lemma_first_index(s: Seq<char>, c: char)
    ensures
        first_index(s, c) == -1 ==> forall|k: int| 0 <= k < s.len() ==> s[k] != c,
        first_index(s, c) >= 0 ==> first_index(s, c) < s.len() && s[first_index(s, c)] == c
            && forall|k: int| 0 <= k < first_index(s, c) ==> s[k] != c,
    decreases s.len(),
{
    if s.len() > 0 && s[0] != c {
        lemma_first_index(s.drop_first(), c);
        assert forall|k: int| 0 <= k < s.len() && s[k] == c implies first_index(s, c) >= 0 by {
            if k > 0 {
                assert(s.drop_first()[k - 1] == c);
            }
        }
        if first_index(s, c) >= 0 {
            let r = first_index(s.drop_first(), c);
            assert forall|k: int| 0 <= k < r + 1 implies s[k] != c by {
                if k > 0 {
                    assert(s.drop_first()[k - 1] == s[k]);
                }
            }
        }
    }
}

pub proof fn lemma_first_index_is(s: Seq<char>, c: char, i: int)
    requires
        0 <= i < s.len(),
        s[i] == c,
        forall|k: int| 0 <= k < i ==> s[k] != c,
    ensures
        first_index(s, c) == i,
    decreases s.len(),
{
    if i > 0 {
        assert(s[0] != c);
        assert(s.drop_first()[i - 1] == c);
        assert forall|k: int| 0 <= k < i - 1 implies s.drop_first()[k] != c by {
            assert(s.drop_first()[k] == s[k + 1]);
        }
        lemma_first_index_is(s.drop_first(), c, i - 1);
    }
}

pub proof fn lemma_count_char_skip(s: Seq<char>, c: char, i: int)
    requires
        0 <= i < s.len(),
    ensures
        count_char(s.skip(i), c) == (if s[i] == c {
            1nat
        } else {
            0nat
        }) + count_char(s.skip(i + 1), c),
{
    assert(s.skip(i)[0] == s[i]);
    assert(s.skip(i).drop_first() =~= s.skip(i + 1));
}

/// Index of the first occurrence of `c`, scanning left to right.
pub fn find_char(s: &str, c: char) -> (r: Option<usize>)
    ensures
        match r {
            Some(i) => first_index(s@, c) == i,
            None => first_index(s@, c) == -1,
        },
{
    let n = s.unicode_len();
    let mut i: usize = 0;
    while i < n
        invariant
            n == s@.len(),
            i <= n,
            forall|k: int| 0 <= k < i ==> s@[k] != c,
        decreases n - i,
    {
        if s.get_char(i) == c {
            proof {
                lemma_first_index_is(s@, c, i as int);
            }
            return Some(i);
        }
        i += 1;
    }
    proof {
        lemma_first_index(s@, c);
        if first_index(s@, c) >= 0 {
            assert(s@[first_index(s@, c)] == c);
        }
    }
    None
}

/// How often `c` occurs, scanning left to right.
pub fn count_occurrences(s: &str, c: char) -> (r: usize)
    ensures
        r == count_char(s@, c),
{
    let n = s.unicode_len();
    let mut i: usize = 0;
    let mut cnt: usize = 0;
    proof {
        assert(s@.skip(0) =~= s@);
    }
    while i < n
        invariant
            n == s@.len(),
            i <= n,
            cnt <= i,
            cnt + count_char(s@.skip(i as int), c) == count_char(s@, c),
        decreases n - i,
    {
        proof {
            lemma_count_char_skip(s@, c, i as int);
        }
        if s.get_char(i) == c {
            cnt += 1;
        }
        i += 1;
    }
    proof {
        assert(s@.skip(n as int) =~= Seq::<char>::empty());
    }
    cnt
}

/// A valid local part: between 1 and 64 allowed characters, no dot or
/// hyphen at either end, no consecutive dots.
pub open spec fn valid_local_part(s: Seq<char>) -> bool {
    &&& 0 < s.len() <= 64
    &&& s[0] != '.' && s[s.len() - 1] != '.'
    &&& s[0] != '-' && s[s.len() - 1] != '-'
    &&& forall|i: int| 0 <= i < s.len() - 1 ==> !(#[trigger] s[i] == '.' && s[i + 1] == '.')
    &&& forall|i: int| 0 <= i < s.len() ==> allowed_local_char_spec(#[trigger] s[i])
}

/// A valid domain label: between 1 and 63 letters, digits or hyphens, with
/// no hyphen at either end.
pub open spec fn valid_domain_label(s: Seq<char>) -> bool {
    &&& 0 < s.len() <= 63
    &&& s[0] != '-' && s[s.len() - 1] != '-'
    &&& forall|i: int| 0 <= i < s.len() ==> is_ascii_alnum(#[trigger] s[i]) || s[i] == '-'
}

/// Every dot-separated label of `s` is a valid domain label.
pub open spec fn labels_valid(s: Seq<char>) -> bool
    decreases s.len(),
    via labels_valid_decreases
{
    let d = first_index(s, '.');
    if d < 0 {
        valid_domain_label(s)
    } else {
        valid_domain_label(s.take(d)) && labels_valid(s.skip(d + 1))
    }
}

#[via_fn]
proof fn labels_valid_decreases(s: Seq<char>) {
    lemma_first_index(s, '.');
}

/// A valid domain: between 1 and 253 allowed characters, no dot at either
/// end, no consecutive dots, at least two labels, every label valid.
pub open spec fn valid_domain_part(s: Seq<char>) -> bool {
    &&& 0 < s.len() <= 253
    &&& s[0] != '.' && s[s.len() - 1] != '.'
    &&& forall|i: int| 0 <= i < s.len() - 1 ==> !(#[trigger] s[i] == '.' && s[i + 1] == '.')
    &&& forall|i: int| 0 <= i < s.len() ==> allowed_domain_char_spec(#[trigger] s[i])
    &&& first_index(s, '.') >= 0
    &&& labels_valid(s)
}

/// A valid address: non-empty ASCII of at most 254 characters, no control
/// characters, exactly one `@`, and valid parts on both of its sides.
pub open spec fn valid_email(s: Seq<char>) -> bool {
    let a = first_index(s, '@');
    &&& 0 < s.len() <= 254
    &&& is_ascii_chars(s)
    &&& forall|i: int| 0 <= i < s.len() ==> !is_ascii_control(#[trigger] s[i])
    &&& count_char(s, '@') == 1
    &&& valid_local_part(s.take(a))
    &&& valid_domain_part(s.skip(a + 1))
}

/// The message reported for an invalid non-empty address, following the
/// order the checks run in.
pub open spec fn email_error_message(s: Seq<char>) -> Seq<char> {
    if s.len() > 254 {
        "Email is too long"@
    } else if !is_ascii_chars(s) {
        "Email contains non-ASCII characters"@
    } else if exists|i: int| 0 <= i < s.len() && is_ascii_control(#[trigger] s[i]) {
        "Email contains control characters"@
    } else if count_char(s, '@') != 1 {
        "Invalid email format: missing local part or domain"@
    } else if !valid_local_part(s.take(first_index(s, '@'))) {
        "Invalid local part"@
    } else {
        "Invalid domain part"@
    }
}

/// Validation rules for an email field.
pub struct EmailSchema {
    pub required: bool,
}

impl EmailSchema {
    pub fn new() -> (r: Self)
        ensures
            r.required == true,
    {
        Self { required: true }
    }

    pub fn optional(self) -> (r: Self)
        ensures
            r.required == false,
    {
        Self { required: false }
    }

    pub fn allowed_local_char(c: char) -> (r: bool)
        ensures
            r == allowed_local_char_spec(c),
    {
        ('a' <= c && c <= 'z') || ('A' <= c && c <= 'Z') || ('0' <= c && c <= '9') || c == '.'
            || c == '-' || c == '_' || c == '+'
    }

    pub fn allowed_domain_char(c: char) -> (r: bool)
        ensures
            r == allowed_domain_char_spec(c),
    {
        ('a' <= c && c <= 'z') || ('A' <= c && c <= 'Z') || ('0' <= c && c <= '9') || c == '-'
            || c == '.'
    }

    pub fn is_valid_local_part(local: &str) -> (r: bool)
        ensures
            r == valid_local_part(local@),
    {
        let n = local.unicode_len();
        if n == 0 || n > 64 {
            return false;
        }
        let first = local.get_char(0);
        let last = local.get_char(n - 1);
        if first == '.' || last == '.' || first == '-' || last == '-' {
            return false;
        }
        let mut i: usize = 0;
        while i < n
            invariant
                n == local@.len(),
                i <= n,
                forall|k: int|
                    0 <= k < i - 1 ==> !(#[trigger] local@[k] == '.' && local@[k + 1] == '.'),
                forall|k: int| 0 <= k < i ==> allowed_local_char_spec(#[trigger] local@[k]),
            decreases n - i,
        {
            let c = local.get_char(i);
            if !Self::allowed_local_char(c) {
                return false;
            }
            if c == '.' && i > 0 && local.get_char(i - 1) == '.' {
                return false;
            }
            i += 1;
        }
        true
    }

    pub fn is_valid_domain_label(label: &str) -> (r: bool)
        ensures
            r == valid_domain_label(label@),
    {
        let n = label.unicode_len();
        if n == 0 || n > 63 {
            return false;
        }
        if label.get_char(0) == '-' || label.get_char(n - 1) == '-' {
            return false;
        }
        let mut i: usize = 0;
        while i < n
            invariant
                n == label@.len(),
                i <= n,
                forall|k: int| 0 <= k < i ==> is_ascii_alnum(#[trigger] label@[k]) || label@[k] == '-',
            decreases n - i,
        {
            let c = label.get_char(i);
            if !(('a' <= c && c <= 'z') || ('A' <= c && c <= 'Z') || ('0' <= c && c <= '9') || c
                == '-') {
                return false;
            }
            i += 1;
        }
        true
    }

    /// Checks every dot-separated label of an ASCII domain.
    fn labels_ok(domain: &str) -> (r: bool)
        requires
            vstd::string::is_ascii(domain),
        ensures
            r == labels_valid(domain@),
        decreases domain@.len(),
    {
        match find_char(domain, '.') {
            None => Self::is_valid_domain_label(domain),
            Some(d) => {
                proof {
                    lemma_first_index(domain@, '.');
                }
                let head = domain.substring_ascii(0, d);
                if !Self::is_valid_domain_label(head) {
                    proof {
                        assert(head@ =~= domain@.take(d as int));
                    }
                    return false;
                }
                let tail = domain.substring_ascii(d + 1, domain.unicode_len());
                proof {
                    assert(head@ =~= domain@.take(d as int));
                    assert(tail@ =~= domain@.skip(d + 1));
                }
                Self::labels_ok(tail)
            },
        }
    }

    pub fn is_valid_domain_part(domain: &str) -> (r: bool)
        ensures
            r == valid_domain_part(domain@),
    {
        let n = domain.unicode_len();
        if n == 0 || n > 253 {
            return false;
        }
        if domain.get_char(0) == '.' || domain.get_char(n - 1) == '.' {
            return false;
        }
        let mut i: usize = 0;
        while i < n
            invariant
                n == domain@.len(),
                i <= n,
                forall|k: int|
                    0 <= k < i - 1 ==> !(#[trigger] domain@[k] == '.' && domain@[k + 1] == '.'),
                forall|k: int| 0 <= k < i ==> allowed_domain_char_spec(#[trigger] domain@[k]),
            decreases n - i,
        {
            let c = domain.get_char(i);
            if !Self::allowed_domain_char(c) {
                return false;
            }
            if c == '.' && i > 0 && domain.get_char(i - 1) == '.' {
                return false;
            }
            i += 1;
        }
        match find_char(domain, '.') {
            None => {
                proof {
                    lemma_first_index(domain@, '.');
                }
                false
            },
            Some(_) => {
                proof {
                    assert forall|k: int| 0 <= k < domain@.len() implies '\0' <= #[trigger] domain@[k]
                        <= '\u{7f}' by {
                        assert(allowed_domain_char_spec(domain@[k]));
                    }
                }
                Self::labels_ok(domain)
            },
        }
    }
}

impl Validator<String> for EmailSchema {
    fn validate(&self, value: &str) -> (r: ValidationResult<Option<String>>)
        ensures
            value@.len() == 0 && self.required ==> (r matches Err(e) && e.field@ == "email"@
                && e.message@ == "Email is required"@),
            value@.len() == 0 && !self.required ==> (r matches Ok(v) && v is None),
            value@.len() > 0 ==> (match r {
                Ok(v) => valid_email(value@) && (v matches Some(e) && e@ == value@),
                Err(e) => !valid_email(value@) && e.field@ == "email"@ && e.message@
                    == email_error_message(value@),
            }),
    {
        if value.is_empty() {
            if self.required {
                return Err(ValidationError::new("email", "Email is required"));
            } else {
                return Ok(None);
            }
        }

        let n = value.unicode_len();
        if n > 254 {
            return Err(ValidationError::new("email", "Email is too long"));
        }

        if !value.is_ascii() {
            return Err(ValidationError::new("email", "Email contains non-ASCII characters"));
        }

        let mut i: usize = 0;
        while i < n
            invariant
                n == value@.len(),
                n <= 254,
                is_ascii_chars(value@),
                i <= n,
                forall|k: int| 0 <= k < i ==> !is_ascii_control(#[trigger] value@[k]),
            decreases n - i,
        {
            let c = value.get_char(i);
            if c < ' ' || c == '\u{7f}' {
                proof {
                    assert(is_ascii_control(value@[i as int]));
                }
                return Err(ValidationError::new("email", "Email contains control characters"));
            }
            i += 1;
        }

        let at_count = count_occurrences(value, '@');
        if at_count != 1 {
            return Err(ValidationError::new(
                "email",
                "Invalid email format: missing local part or domain",
            ));
        }

        let at = match find_char(value, '@') {
            Some(a) => a,
            None => {
                proof {
                    lemma_first_index(value@, '@');
                    lemma_count_none(value@, '@');
                }
                return Err(ValidationError::new("email", "Invalid email format"));
            },
        };
        proof {
            lemma_first_index(value@, '@');
        }

        let local_part = value.substring_ascii(0, at);
        let domain_part = value.substring_ascii(at + 1, n);
        proof {
            assert(local_part@ =~= value@.take(at as int));
            assert(domain_part@ =~= value@.skip(at + 1));
        }

        if !EmailSchema::is_valid_local_part(local_part) {
            return Err(ValidationError::new("email", "Invalid local part"));
        }

        if !EmailSchema::is_valid_domain_part(domain_part) {
            return Err(ValidationError::new("email", "Invalid domain part"));
        }

        Ok(Some(value.to_owned()))
    }
}

/// When no position holds `c`, the count of `c` is zero.
pub proof fn lemma_count_none(s: Seq<char>, c: char)
    requires
        forall|i: int| 0 <= i < s.len() ==> s[i] != c,
    ensures
        count_char(s, c) == 0,
    decreases s.len(),
{
    if s.len() > 0 {
        assert forall|i: int| 0 <= i < s.drop_first().len() implies s.drop_first()[i] != c by {
            assert(s.drop_first()[i] == s[i + 1]);
        }
        lemma_count_none(s.drop_first(), c);
    }
}

pub fn email() -> (r: EmailSchema)
    ensures
        r.required == true,
{
    EmailSchema::new()
}

} // verus!

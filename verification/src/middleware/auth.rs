//! The session resolver: extracts a bearer token from the request's
//! cookie header, verifies it, re-reads the identity's current status
//! from the store, and produces an authenticated context — or not.
//!
//! Two postures: best-effort resolution never rejects, it only decides
//! whether a context is attached; mandatory resolution rejects whenever
//! no usable identity can be resolved.

use vstd::prelude::*;

use crate::clock::current_unix_time;
use crate::ids::uuid_of;
use crate::models::User;
use crate::services::jwt::{jwt_claims, JwtService};
use crate::store::{lookup_id, UserStore};
use crate::validation::email::{find_char, first_index, lemma_first_index};

verus! {

/// The request-scoped authenticated context: the resolved identity.
#[derive(Debug)]
pub struct AuthUser {
    pub user: User,
}

impl Clone for AuthUser {
    /// An exact copy of the context.
    fn clone(&self) -> (r: Self)
        ensures
            r == *self,
    {
        AuthUser { user: self.user.clone() }
    }
}

/// The two authorization postures.
#[derive(Debug, Clone, Copy, PartialEq, Eq, Structural)]
pub enum ResolveMode {
    /// Attach a context when possible; never reject.
    BestEffort,
    /// Reject unless a usable identity is resolved.
    Mandatory,
}

/// What resolving a request yields.
#[derive(Debug)]
pub enum Resolution {
    /// A usable identity was resolved and attached.
    Authenticated(AuthUser),
    /// No identity attached; the request proceeds anonymously.
    Anonymous,
    /// The request is rejected before the handler runs.
    Unauthorized,
}

/// ASCII whitespace, as trimmed from cookie segments.
pub open spec fn is_cookie_space(c: char) -> bool {
    c == ' ' || c == '\t' || c == '\r' || c == '\n'
}

/// `s` without leading whitespace.
pub open spec fn trim_front(s: Seq<char>) -> Seq<char>
    decreases s.len(),
{
    if s.len() > 0 && is_cookie_space(s[0]) {
        trim_front(s.drop_first())
    } else {
        s
    }
}

/// `s` without trailing whitespace.
pub open spec fn trim_back(s: Seq<char>) -> Seq<char>
    decreases s.len(),
{
    if s.len() > 0 && is_cookie_space(s[s.len() - 1]) {
        trim_back(s.drop_last())
    } else {
        s
    }
}

/// `s` without leading or trailing whitespace.
pub open spec fn trimmed(s: Seq<char>) -> Seq<char> {
    trim_back(trim_front(s))
}

/// Whether `s` starts with `p`.
pub open spec fn has_prefix(s: Seq<char>, p: Seq<char>) -> bool {
    s.len() >= p.len() && s.take(p.len() as int) == p
}

/// The token a single cookie segment carries: the value after the
/// `auth_token=` name, if the trimmed segment starts with it.
pub open spec fn segment_token(seg: Seq<char>) -> Option<Seq<char>> {
    let t = trimmed(seg);
    if has_prefix(t, "auth_token="@) {
        Some(t.skip("auth_token="@.len() as int))
    } else {
        None
    }
}

/// The token the whole cookie header carries: from the first
/// `;`-separated segment that names `auth_token`.
pub open spec fn cookie_token(h: Seq<char>) -> Option<Seq<char>>
    decreases h.len(),
    via cookie_token_decreases
{
    let d = first_index(h, ';');
    if d < 0 {
        segment_token(h)
    } else {
        match segment_token(h.take(d)) {
            Some(t) => Some(t),
            None => cookie_token(h.skip(d + 1)),
        }
    }
}

#[via_fn]
proof fn cookie_token_decreases(h: Seq<char>) {
    lemma_first_index(h, ';');
}

/// The identity a request resolves to at time `now`: the token from the
/// cookie header, its claims under the secret, the expiry still ahead of
/// `now`, the subject parsed as an id, the live record for that id — and
/// only if that record is usable.
pub open spec fn session_identity(
    s: Seq<User>,
    secret: Seq<u8>,
    tok: Option<Seq<char>>,
    now: int,
) -> Option<User> {
    match tok {
        None => None,
        Some(t) => match jwt_claims(secret, t) {
            None => None,
            Some(c) => if now < c.2 {
                match uuid_of(c.0) {
                    None => None,
                    Some(uid) => match lookup_id(s, uid) {
                        Some(u) => if u.usable() {
                            Some(u)
                        } else {
                            None
                        },
                        None => None,
                    },
                }
            } else {
                None
            },
        },
    }
}

/// The token an optional cookie header carries.
pub open spec fn header_token(h: Option<&str>) -> Option<Seq<char>> {
    match h {
        Some(s) => cookie_token(s@),
        None => None,
    }
}

/// Extracts the trimmed segment of `seg` and yields the token value when
/// the segment names `auth_token`.
fn segment_token_exec(seg: &str) -> (r: Option<String>)
    ensures
        match r {
            Some(t) => segment_token(seg@) == Some(t@),
            None => segment_token(seg@) is None,
        },
{
    let n = seg.unicode_len();
    let mut a: usize = 0;
    while a < n && is_space_exec(seg.get_char(a))
        invariant
            n == seg@.len(),
            a <= n,
            forall|k: int| 0 <= k < a ==> is_cookie_space(#[trigger] seg@[k]),
        decreases n - a,
    {
        a += 1;
    }
    let mut b: usize = n;
    while b > a && is_space_exec(seg.get_char(b - 1))
        invariant
            n == seg@.len(),
            a <= b <= n,
            forall|k: int| b <= k < n ==> is_cookie_space(#[trigger] seg@[k]),
            forall|k: int| 0 <= k < a ==> is_cookie_space(#[trigger] seg@[k]),
            a < n ==> !is_cookie_space(seg@[a as int]),
        decreases b,
    {
        b -= 1;
    }
    proof {
        lemma_trim_scan(seg@, a as int, b as int);
    }
    let t = seg.substring_char(a, b);
    proof {
        assert(t@ =~= seg@.subrange(a as int, b as int));
        reveal_strlit("auth_token=");
    }
    let t_len = t.unicode_len();
    if t_len < 11 {
        return None;
    }
    let head = t.substring_char(0, 11);
    if !crate::strutil::str_eq(head, "auth_token=") {
        proof {
            assert(head@ =~= trimmed(seg@).take(11));
        }
        return None;
    }
    proof {
        assert(head@ =~= trimmed(seg@).take(11));
    }
    let value = t.substring_char(11, t_len);
    proof {
        assert(value@ =~= trimmed(seg@).skip(11));
    }
    Some(value.to_owned())
}

fn is_space_exec(c: char) -> (r: bool)
    ensures
        r == is_cookie_space(c),
{
    c == ' ' || c == '\t' || c == '\r' || c == '\n'
}

/// A scan that stops at the first and last non-space characters finds
/// exactly the trimmed subrange.
proof fn lemma_trim_scan(s: Seq<char>, a: int, b: int)
    requires
        0 <= a <= b <= s.len(),
        forall|k: int| 0 <= k < a ==> is_cookie_space(#[trigger] s[k]),
        forall|k: int| b <= k < s.len() ==> is_cookie_space(#[trigger] s[k]),
        a < s.len() ==> !is_cookie_space(s[a]),
        b > a ==> !is_cookie_space(s[b - 1]),
    ensures
        trimmed(s) == s.subrange(a, b),
    decreases s.len(),
{
    if a > 0 {
        assert(is_cookie_space(s[0]));
        assert forall|k: int| 0 <= k < a - 1 implies is_cookie_space(
            #[trigger] s.drop_first()[k],
        ) by {
            assert(s.drop_first()[k] == s[k + 1]);
        }
        assert forall|k: int| b - 1 <= k < s.drop_first().len() implies is_cookie_space(
            #[trigger] s.drop_first()[k],
        ) by {
            assert(s.drop_first()[k] == s[k + 1]);
        }
        lemma_trim_scan(s.drop_first(), a - 1, b - 1);
        assert(trim_front(s) == trim_front(s.drop_first()));
        assert(s.drop_first().subrange(a - 1, b - 1) =~= s.subrange(a, b));
    } else {
        assert(trim_front(s) == s) by {
            if s.len() > 0 {
                assert(!is_cookie_space(s[0]));
            }
        }
        lemma_trim_back_scan(s, b);
    }
}

/// Helper: once the front is fixed, trimming the back stops at `b`.
proof fn lemma_trim_back_scan(s: Seq<char>, b: int)
    requires
        0 <= b <= s.len(),
        forall|k: int| b <= k < s.len() ==> is_cookie_space(#[trigger] s[k]),
        b > 0 ==> !is_cookie_space(s[b - 1]),
    ensures
        trim_back(s) == s.subrange(0, b),
    decreases s.len(),
{
    if b == s.len() {
        if s.len() > 0 {
            assert(!is_cookie_space(s[s.len() - 1]));
        }
        assert(s.subrange(0, b) =~= s);
    } else {
        assert(is_cookie_space(s[s.len() - 1]));
        assert(s.drop_last() =~= s.subrange(0, s.len() - 1));
        lemma_trim_back_scan(s.drop_last(), b);
        assert(s.drop_last().subrange(0, b) =~= s.subrange(0, b));
    }
}

/// Extracts the auth token from a cookie header: the value of the first
/// `auth_token` cookie, with surrounding whitespace trimmed.
pub fn extract_auth_token(header: &str) -> (r: Option<String>)
    ensures
        match r {
            Some(t) => cookie_token(header@) == Some(t@),
            None => cookie_token(header@) is None,
        },
    decreases header@.len(),
{
    match find_char(header, ';') {
        None => segment_token_exec(header),
        Some(d) => {
            proof {
                lemma_first_index(header@, ';');
            }
            let seg = header.substring_char(0, d);
            proof {
                assert(seg@ =~= header@.take(d as int));
            }
            match segment_token_exec(seg) {
                Some(t) => Some(t),
                None => {
                    let n = header.unicode_len();
                    let rest = header.substring_char(d + 1, n);
                    proof {
                        assert(rest@ =~= header@.skip(d + 1));
                    }
                    extract_auth_token(rest)
                },
            }
        },
    }
}

/// Decides a request's outcome from the re-read identity record, once
/// token extraction and verification have already produced an id: the
/// context is attached exactly when a record was found and is usable;
/// otherwise mandatory mode rejects and best-effort proceeds anonymously.
/// Pass `None` for a failed lookup or a failed token chain.
pub fn finish_resolution(mode: ResolveMode, lookup: Option<User>) -> (r: Resolution)
    ensures
        mode == ResolveMode::BestEffort ==> !(r is Unauthorized),
        mode == ResolveMode::Mandatory ==> !(r is Anonymous),
        match lookup {
            Some(u) => if u.usable() {
                r matches Resolution::Authenticated(a) && a.user == u
            } else {
                !(r is Authenticated)
            },
            None => !(r is Authenticated),
        },
{
    match lookup {
        Some(user) => {
            if user.is_active() {
                return Resolution::Authenticated(AuthUser { user });
            }
            if matches!(mode, ResolveMode::Mandatory) {
                Resolution::Unauthorized
            } else {
                Resolution::Anonymous
            }
        },
        None => {
            if matches!(mode, ResolveMode::Mandatory) {
                Resolution::Unauthorized
            } else {
                Resolution::Anonymous
            }
        },
    }
}

/// Resolves a request's session against the time `now`.  The context is
/// attached exactly when the chain — cookie present, token claims
/// decode, expiry ahead of `now`, subject parses, identity found live
/// and usable — resolves to an identity; otherwise mandatory mode
/// rejects and best-effort proceeds anonymously.
pub fn resolve_session_at(
    store: &UserStore,
    jwt: &JwtService,
    mode: ResolveMode,
    cookie_header: Option<&str>,
    now: i64,
) -> (r: Resolution)
    ensures
        mode == ResolveMode::BestEffort ==> !(r is Unauthorized),
        mode == ResolveMode::Mandatory ==> !(r is Anonymous),
        (match session_identity(
            store.records(),
            jwt.secret_bytes(),
            header_token(cookie_header),
            now as int,
        ) {
            Some(u) => r matches Resolution::Authenticated(a) && a.user == u,
            None => if mode == ResolveMode::Mandatory {
                r is Unauthorized
            } else {
                r is Anonymous
            },
        }),
{
    let token = match cookie_header {
        Some(h) => extract_auth_token(h),
        None => None,
    };
    let token = match token {
        Some(t) => t,
        None => {
            return finish_resolution(mode, None);
        },
    };
    let claims = match jwt.verify_token_at(token.as_str(), now) {
        Ok(c) => c,
        Err(_) => {
            return finish_resolution(mode, None);
        },
    };
    let user_id = match crate::ids::parse_user_id(claims.sub.as_str()) {
        Some(uid) => uid,
        None => {
            return finish_resolution(mode, None);
        },
    };
    finish_resolution(mode, store.find_by_id(user_id))
}

/// Resolves a request's session against the clock.  Best-effort never
/// rejects; mandatory never passes a request through anonymously; a
/// context is attached only for an identity the chain resolves to at
/// some time, and a chain that resolves at no time — cookie absent,
/// token undecodable, subject unparsable, identity missing or unusable
/// — never attaches one.
pub fn resolve_session(
    store: &UserStore,
    jwt: &JwtService,
    mode: ResolveMode,
    cookie_header: Option<&str>,
) -> (r: Resolution)
    ensures
        mode == ResolveMode::BestEffort ==> !(r is Unauthorized),
        mode == ResolveMode::Mandatory ==> !(r is Anonymous),
        r matches Resolution::Authenticated(a) ==> exists|t: int|
            #[trigger] session_identity(
                store.records(),
                jwt.secret_bytes(),
                header_token(cookie_header),
                t,
            ) == Some(a.user),
        (forall|t: int|
            #[trigger] session_identity(
                store.records(),
                jwt.secret_bytes(),
                header_token(cookie_header),
                t,
            ) is None) ==> (if mode == ResolveMode::Mandatory {
            r is Unauthorized
        } else {
            r is Anonymous
        }),
{
    let now = current_unix_time();
    resolve_session_at(store, jwt, mode, cookie_header, now)
}

} // verus!

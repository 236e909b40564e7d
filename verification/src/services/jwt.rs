//! The token service: issues and verifies signed, time-bounded bearer
//! tokens binding a request to an identity.
//!
//! A token is an HMAC-signed claims encoding.  What a given token decodes
//! to under a given secret is a fixed value, named by [`jwt_claims`]; the
//! expiry check is made in verified code against the clock.

use vstd::prelude::*;
use vstd::string::StrSliceExecFns;
use vstd::string::StringSliceAdditionalSpecFns;

use crate::clock::current_unix_time;
use crate::ids::{format_user_id, parse_user_id, uuid_of, uuid_text};

verus! {

/// How long an issued token stays valid, in seconds (30 days).
pub const TOKEN_LIFETIME_SECS: i64 = 30 * 24 * 60 * 60;

/// The claims carried inside a token: the subject (an identity id in
/// text form), the expiry and the issue time, as Unix seconds.
#[derive(Debug)]
pub struct Claims {
    pub sub: String,
    pub exp: i64,
    pub iat: i64,
}

/// The single failure outcomes of the token service: issuing can fail
/// internally, and every verification failure collapses to `Invalid`.
#[derive(Debug, Clone, Copy, PartialEq, Eq, Structural)]
pub enum TokenError {
    /// Signing or encoding failed while issuing.
    Creation,
    /// The token did not verify; no reason is disclosed.
    Invalid,
}

/// The claims a token decodes to under a secret, as (subject, issue time,
/// expiry), or nothing when the token does not decode; names what
/// `jsonwebtoken::decode` yields with expiry validation turned off — a
/// function of the secret and the token alone.
pub uninterp spec fn jwt_claims(secret: Seq<u8>, token: Seq<char>) -> Option<(Seq<char>, int, int)>;

/// Whether a token is one issued for this identity under this secret:
/// its claims decode names the identity and spans the token lifetime.
pub open spec fn token_for(secret: Seq<u8>, token: Seq<char>, user_id: u128) -> bool {
    match jwt_claims(secret, token) {
        Some(c) => c.0 == uuid_text(user_id) && c.2 == c.1 + TOKEN_LIFETIME_SECS,
        None => false,
    }
}

/// Relies on jsonwebtoken::encode with EncodingKey::from_secret and the
/// default HS256 header: the returned token decodes back to exactly the
/// claims that were signed, under the same secret.  Encoding succeeds:
/// the secret key's family always matches the default header's HS256,
/// serializing these string and integer claims cannot fail, and HMAC
/// signing is infallible.  The expiry must not be negative: the decode
/// side reads `exp` as a non-negative number and refuses a token whose
/// expiry is not, so the round trip holds only then.
#[verifier::external_body]
fn encode_claims(secret: &Vec<u8>, claims: &Claims) -> (r: Option<String>)
    requires
        claims.exp >= 0,
    ensures
        r is Some,
        r matches Some(t) ==> jwt_claims(secret@, t@) == Some(
            (claims.sub@, claims.iat as int, claims.exp as int),
        ),
{
    let mut payload = serde_json::Map::new();
    payload.insert("sub".to_string(), serde_json::Value::String(claims.sub.clone()));
    payload.insert("iat".to_string(), serde_json::Value::from(claims.iat));
    payload.insert("exp".to_string(), serde_json::Value::from(claims.exp));
    let key = jsonwebtoken::EncodingKey::from_secret(secret.as_slice());
    let header = jsonwebtoken::Header::default();
    jsonwebtoken::encode(&header, &serde_json::Value::Object(payload), &key).ok()
}

/// Relies on jsonwebtoken::decode with DecodingKey::from_secret and the
/// default HS256 validation, except that its clock-based expiry check is
/// turned off: what remains (signature, structure, presence and types of
/// the claims) is a function of the secret and the token alone, and is
/// exactly what [`jwt_claims`] names.  The expiry check itself is made by
/// the callers, in verified code.
#[verifier::external_body]
fn decode_claims(secret: &Vec<u8>, token: &str) -> (r: Option<Claims>)
    ensures
        match r {
            Some(c) => jwt_claims(secret@, token@) == Some(
                (c.sub@, c.iat as int, c.exp as int),
            ),
            None => jwt_claims(secret@, token@) is None,
        },
{
    let key = jsonwebtoken::DecodingKey::from_secret(secret.as_slice());
    let mut validation = jsonwebtoken::Validation::default();
    validation.validate_exp = false;
    let data = jsonwebtoken::decode::<serde_json::Value>(token, &key, &validation).ok()?;
    let sub = data.claims.get("sub")?.as_str()?.to_string();
    let iat = data.claims.get("iat")?.as_i64()?;
    let exp = data.claims.get("exp")?.as_i64()?;
    Some(Claims { sub, exp, iat })
}

/// The token service: holds the process-wide signing secret, loaded once
/// at startup and immutable for the process lifetime.
pub struct JwtService {
    secret: Vec<u8>,
}

impl JwtService {
    /// The signing secret's bytes.
    pub closed spec fn secret_bytes(&self) -> Seq<u8> {
        self.secret@
    }

    pub fn new(secret: &str) -> (r: Self)
        ensures
            r.secret_bytes() == secret.spec_bytes(),
    {
        JwtService { secret: secret.as_bytes_vec() }
    }

    /// Issues a token for this identity with the issue time `now` and the
    /// expiry one token lifetime later.  Issuing succeeds exactly when
    /// `now` is a representable clock reading: not negative (the token
    /// format carries no earlier expiry) and with the expiry fitting the
    /// timestamp type.
    pub fn generate_token_at(&self, user_id: u128, now: i64) -> (r: Result<String, TokenError>)
        ensures
            0 <= now <= i64::MAX - TOKEN_LIFETIME_SECS ==> r is Ok,
            r matches Ok(t) ==> jwt_claims(self.secret_bytes(), t@) == Some(
                (uuid_text(user_id), now as int, now + TOKEN_LIFETIME_SECS),
            ) && uuid_of(uuid_text(user_id)) == Some(user_id),
            r matches Err(e) ==> e == TokenError::Creation,
    {
        if now < 0 || now > i64::MAX - TOKEN_LIFETIME_SECS {
            return Err(TokenError::Creation);
        }
        let sub = format_user_id(user_id);
        let claims = Claims { sub, exp: now + TOKEN_LIFETIME_SECS, iat: now };
        match encode_claims(&self.secret, &claims) {
            Some(t) => Ok(t),
            None => Err(TokenError::Creation),
        }
    }

    /// Issues a token for this identity: issue time now, expiry one token
    /// lifetime later.
    pub fn generate_token(&self, user_id: u128) -> (r: Result<String, TokenError>)
        ensures
            r matches Ok(t) ==> token_for(self.secret_bytes(), t@, user_id) && uuid_of(
                uuid_text(user_id),
            ) == Some(user_id),
            r matches Err(e) ==> e == TokenError::Creation,
    {
        let now = current_unix_time();
        self.generate_token_at(user_id, now)
    }

    /// Verifies a token against the time `now`: it is accepted exactly
    /// when its claims decode under this service's secret, the subject
    /// names an identity, and `now` lies before the expiry; the returned
    /// claims are then exactly the decoded ones.  Every failure — bad
    /// signature, expired, malformed subject — collapses to `Invalid`.
    pub fn verify_token_at(&self, token: &str, now: i64) -> (r: Result<Claims, TokenError>)
        ensures
            (match jwt_claims(self.secret_bytes(), token@) {
                Some(c) => {
                    if (uuid_of(c.0) is Some) && now < c.2 {
                        r matches Ok(cl) && cl.sub@ == c.0 && cl.iat == c.1 && cl.exp == c.2
                    } else {
                        r == Err::<Claims, TokenError>(TokenError::Invalid)
                    }
                },
                None => r == Err::<Claims, TokenError>(TokenError::Invalid),
            }),
    {
        let claims = match decode_claims(&self.secret, token) {
            Some(c) => c,
            None => {
                return Err(TokenError::Invalid);
            },
        };
        if parse_user_id(claims.sub.as_str()).is_none() {
            return Err(TokenError::Invalid);
        }
        if now >= claims.exp {
            return Err(TokenError::Invalid);
        }
        Ok(claims)
    }

    /// Verifies a token against the clock: on success the returned claims
    /// are exactly what the token decodes to under this service's secret,
    /// their subject names an identity, and the expiry lies ahead of the
    /// clock reading.  Every failure collapses to `Invalid`.
    pub fn verify_token(&self, token: &str) -> (r: Result<Claims, TokenError>)
        ensures
            r matches Ok(c) ==> jwt_claims(self.secret_bytes(), token@) == Some(
                (c.sub@, c.iat as int, c.exp as int),
            ) && uuid_of(c.sub@) is Some,
            (match jwt_claims(self.secret_bytes(), token@) {
                Some(c) => uuid_of(c.0) is None,
                None => true,
            }) ==> r is Err,
            r matches Err(e) ==> e == TokenError::Invalid,
    {
        let now = current_unix_time();
        self.verify_token_at(token, now)
    }

    /// Verifies a token and yields its subject as an identity id.  On
    /// success the id is the one the token's claims name.
    pub fn extract_user_id(&self, token: &str) -> (r: Result<u128, TokenError>)
        ensures
            r matches Ok(uid) ==> (match jwt_claims(self.secret_bytes(), token@) {
                Some(c) => uuid_of(c.0) == Some(uid),
                None => false,
            }),
            (match jwt_claims(self.secret_bytes(), token@) {
                Some(c) => uuid_of(c.0) is None,
                None => true,
            }) ==> r is Err,
            r matches Err(e) ==> e == TokenError::Invalid,
    {
        let claims = match self.verify_token(token) {
            Ok(c) => c,
            Err(e) => {
                return Err(e);
            },
        };
        match parse_user_id(claims.sub.as_str()) {
            Some(uid) => Ok(uid),
            None => Err(TokenError::Invalid),
        }
    }
}

impl Clone for JwtService {
    /// A copy holding the same secret.
    fn clone(&self) -> (r: Self)
        ensures
            r.secret_bytes() == self.secret_bytes(),
    {
        JwtService { secret: self.secret.clone() }
    }
}

/// An issued token names its subject: when a token was issued for an
/// identity, any claims a verification recovers carry that identity's
/// textual id as subject, the subject parses back to that identity, and
/// the expiry lies exactly one token lifetime after the issue time.
pub proof fn lemma_issued_token_subject(
    secret: Seq<u8>,
    token: Seq<char>,
    user_id: u128,
    c: (Seq<char>, int, int),
)
    requires
        token_for(secret, token, user_id),
        uuid_of(uuid_text(user_id)) == Some(user_id),
        jwt_claims(secret, token) == Some(c),
    ensures
        c.0 == uuid_text(user_id),
        uuid_of(c.0) == Some(user_id),
        c.2 == c.1 + TOKEN_LIFETIME_SECS,
        c.2 > c.1,
{
}

} // verus!

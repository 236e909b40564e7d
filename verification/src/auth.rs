//! The auth orchestrator: the register, login and logout workflows over
//! the credential store, the password hasher and the token service.

use vstd::prelude::*;
use vstd::utf8::encode_utf8;

use crate::clock::current_unix_time;
use crate::enums::AccountStatus;
use crate::ids::{new_user_id, uuid_of, uuid_text};
use crate::models::User;
use crate::password::{hash_password, password_matches, verify_password};
use crate::services::jwt::{token_for, JwtService};
use crate::store::{lookup_email, lookup_username, UserStore};
use crate::store::{lemma_email_idx, lemma_email_idx_is};

verus! {

/// A registration request's fields, as read from the form body.
#[derive(Debug)]
pub struct RegisterRequest {
    pub email: String,
    pub username: String,
    pub password: String,
    pub first_name: String,
    pub last_name: String,
}

/// A login request's fields, as read from the form body.
#[derive(Debug)]
pub struct LoginRequest {
    pub email: String,
    pub password: String,
}

/// An email-verification request's fields.
#[derive(Debug)]
pub struct EmailVerificationRequest {
    pub token: String,
}

/// Every failure an auth workflow can end in, with its external status
/// code and message fixed by [`AuthError::status_code`] and
/// [`AuthError::message`].
#[derive(Debug, Clone, Copy, PartialEq, Eq, Structural)]
pub enum AuthError {
    /// A required field was empty (a validation error).
    MissingFields,
    /// A live identity already carries the email (a conflict).
    EmailTaken,
    /// A live identity already carries the username (a conflict).
    UsernameTaken,
    /// Unknown email or wrong password; deliberately one generic outcome.
    InvalidCredentials,
    /// The credential was proven correct but the account is not usable.
    AccountNotActive,
    /// The password hasher failed (an internal fault).
    HashingFailed,
    /// The identity record could not be created (an internal fault).
    CreateFailed,
    /// The token service failed to sign (an internal fault).
    TokenFailed,
}

impl AuthError {
    /// The HTTP status each failure maps to.
    pub open spec fn status_spec(self) -> u16 {
        match self {
            AuthError::MissingFields => 400,
            AuthError::EmailTaken => 409,
            AuthError::UsernameTaken => 409,
            AuthError::InvalidCredentials => 401,
            AuthError::AccountNotActive => 403,
            AuthError::HashingFailed => 500,
            AuthError::CreateFailed => 500,
            AuthError::TokenFailed => 500,
        }
    }

    /// The message each failure surfaces to the client.
    pub open spec fn message_spec(self) -> Seq<char> {
        match self {
            AuthError::MissingFields => "Email, username, and password are required"@,
            AuthError::EmailTaken => "User with this email already exists"@,
            AuthError::UsernameTaken => "Username already taken"@,
            AuthError::InvalidCredentials => "Invalid username or password"@,
            AuthError::AccountNotActive => "Account is not active"@,
            AuthError::HashingFailed => "Failed to hash password"@,
            AuthError::CreateFailed => "Failed to create user"@,
            AuthError::TokenFailed => "Failed to generate authentication token"@,
        }
    }

    pub fn status_code(&self) -> (r: u16)
        ensures
            r == self.status_spec(),
    {
        match self {
            AuthError::MissingFields => 400,
            AuthError::EmailTaken => 409,
            AuthError::UsernameTaken => 409,
            AuthError::InvalidCredentials => 401,
            AuthError::AccountNotActive => 403,
            AuthError::HashingFailed => 500,
            AuthError::CreateFailed => 500,
            AuthError::TokenFailed => 500,
        }
    }

    pub fn message(&self) -> (r: String)
        ensures
            r@ == self.message_spec(),
    {
        match self {
            AuthError::MissingFields => "Email, username, and password are required".to_owned(),
            AuthError::EmailTaken => "User with this email already exists".to_owned(),
            AuthError::UsernameTaken => "Username already taken".to_owned(),
            AuthError::InvalidCredentials => "Invalid username or password".to_owned(),
            AuthError::AccountNotActive => "Account is not active".to_owned(),
            AuthError::HashingFailed => "Failed to hash password".to_owned(),
            AuthError::CreateFailed => "Failed to create user".to_owned(),
            AuthError::TokenFailed => "Failed to generate authentication token".to_owned(),
        }
    }
}

/// How the auth token travels: a cookie, described so the transport
/// layer can realize it.
#[derive(Debug)]
pub struct CookieSpec {
    pub name: String,
    pub value: String,
    pub http_only: bool,
    pub secure: bool,
    pub same_site_strict: bool,
    pub path: String,
}

/// The auth cookie: named `auth_token`, HttpOnly, SameSite=Strict,
/// path `/`, carrying exactly this value.  The Secure flag is left to
/// the deployment, so it is not part of this shape.
pub open spec fn is_auth_cookie(c: CookieSpec, value: Seq<char>) -> bool {
    &&& c.name@ == "auth_token"@
    &&& c.value@ == value
    &&& c.http_only
    &&& c.same_site_strict
    &&& c.path@ == "/"@
}

/// Builds the auth cookie carrying this token; this deployment leaves
/// the Secure flag off.
pub fn auth_cookie(token: String) -> (r: CookieSpec)
    ensures
        is_auth_cookie(r, token@),
        !r.secure,
{
    CookieSpec {
        name: "auth_token".to_owned(),
        value: token,
        http_only: true,
        secure: false,
        same_site_strict: true,
        path: "/".to_owned(),
    }
}

/// What a successful register or login hands back: the identity record,
/// the fresh token, the cookie carrying it, and the success message.
#[derive(Debug)]
pub struct AuthSuccess {
    pub user: User,
    pub token: String,
    pub cookie: CookieSpec,
    pub message: String,
}

/// All three required registration fields are present.
pub open spec fn fields_present(req: &RegisterRequest) -> bool {
    req.email@.len() > 0 && req.username@.len() > 0 && req.password@.len() > 0
}

/// Decides the validation and conflict phase of registration from the
/// two uniqueness lookups, so the decision is one verified step whatever
/// performed the lookups: absent required fields are a validation
/// failure, then a live email binding is a conflict, then a live
/// username binding.
pub fn register_precheck(
    req: &RegisterRequest,
    email_lookup: Option<User>,
    username_lookup: Option<User>,
) -> (r: Result<(), AuthError>)
    ensures
        !fields_present(req) ==> r == Err::<(), AuthError>(AuthError::MissingFields),
        fields_present(req) && email_lookup is Some ==> r == Err::<(), AuthError>(
            AuthError::EmailTaken,
        ),
        fields_present(req) && email_lookup is None && username_lookup is Some ==> r == Err::<
            (),
            AuthError,
        >(AuthError::UsernameTaken),
        fields_present(req) && email_lookup is None && username_lookup is None ==> r is Ok,
{
    if req.email.as_str().is_empty() || req.username.as_str().is_empty()
        || req.password.as_str().is_empty() {
        return Err(AuthError::MissingFields);
    }
    if email_lookup.is_some() {
        return Err(AuthError::EmailTaken);
    }
    if username_lookup.is_some() {
        return Err(AuthError::UsernameTaken);
    }
    Ok(())
}

/// Registers a new identity: requires the three fields, refuses an email
/// or username already bound to a live identity, hashes the password,
/// creates the record (unverified email, status `Active`), issues a
/// token and describes the cookie to attach.  Success maps to 201.
pub fn register(store: &mut UserStore, jwt: &JwtService, req: &RegisterRequest) -> (r: Result<
    AuthSuccess,
    AuthError,
>)
    requires
        old(store).wf(),
    ensures
        final(store).wf(),
        !fields_present(req) ==> (r matches Err(e) && e == AuthError::MissingFields) && final(
            store
        ).records() == old(store).records(),
        fields_present(req) && (lookup_email(old(store).records(), req.email@) is Some) ==> (
        r matches Err(e) && e == AuthError::EmailTaken) && final(store).records() == old(
            store
        ).records(),
        fields_present(req) && (lookup_email(old(store).records(), req.email@) is None) && (
        lookup_username(old(store).records(), req.username@) is Some) ==> (r matches Err(e) && e
            == AuthError::UsernameTaken) && final(store).records() == old(store).records(),
        r matches Ok(s) ==> {
            &&& fields_present(req)
            &&& lookup_email(old(store).records(), req.email@) is None
            &&& lookup_username(old(store).records(), req.username@) is None
            &&& s.user.email@ == req.email@
            &&& s.user.username@ == req.username@
            &&& s.user.account_status == AccountStatus::Active
            &&& s.user.email_verified_at is None
            &&& s.user.deleted_at is None
            &&& password_matches(req.password@, s.user.password_hash@)
            &&& final(store).records() =~= old(store).records().push(s.user)
            &&& lookup_email(final(store).records(), req.email@) == Some(s.user)
            &&& token_for(jwt.secret_bytes(), s.token@, s.user.id)
            &&& uuid_of(uuid_text(s.user.id)) == Some(s.user.id)
            &&& is_auth_cookie(s.cookie, s.token@)
            &&& s.message@ == "User registered successfully. Please check your email for verification."@
        },
        r matches Err(e) ==> (match e {
            AuthError::MissingFields => !fields_present(req) && final(store).records() == old(
                store
            ).records(),
            AuthError::EmailTaken => fields_present(req) && (lookup_email(
                old(store).records(),
                req.email@,
            ) is Some) && final(store).records() == old(store).records(),
            AuthError::UsernameTaken => fields_present(req) && (lookup_email(
                old(store).records(),
                req.email@,
            ) is None) && (lookup_username(old(store).records(), req.username@) is Some) && final(
                store
            ).records() == old(store).records(),
            AuthError::HashingFailed | AuthError::CreateFailed => fields_present(req) && (
            lookup_email(old(store).records(), req.email@) is None) && (lookup_username(
                old(store).records(),
                req.username@,
            ) is None) && final(store).records() == old(store).records(),
            AuthError::TokenFailed => fields_present(req) && (lookup_email(
                old(store).records(),
                req.email@,
            ) is None) && (lookup_username(old(store).records(), req.username@) is None) && final(
                store
            ).records().len() == old(store).records().len() + 1,
            AuthError::InvalidCredentials => false,
            AuthError::AccountNotActive => false,
        }),
        fields_present(req) && (lookup_email(old(store).records(), req.email@) is None) && (
        lookup_username(old(store).records(), req.username@) is None)
            && encode_utf8(req.password@).len() <= 0xFFFFFFFF ==> r != Err::<
            AuthSuccess,
            AuthError,
        >(AuthError::HashingFailed),
{
    let email_lookup = store.find_by_email(req.email.as_str());
    let username_lookup = store.find_by_username(req.username.as_str());
    if let Err(e) = register_precheck(req, email_lookup, username_lookup) {
        return Err(e);
    }

    let password_hash = match hash_password(req.password.as_str()) {
        Some(h) => h,
        None => {
            return Err(AuthError::HashingFailed);
        },
    };

    let id = new_user_id();
    let now = current_unix_time();
    let ghost s0 = store.records();
    let user = match store.create_user(
        id,
        req.email.as_str(),
        req.username.as_str(),
        password_hash.as_str(),
        now,
    ) {
        Ok(u) => u,
        Err(_) => {
            return Err(AuthError::CreateFailed);
        },
    };

    proof {
        let s1 = store.records();
        lemma_email_idx(s0, req.email@);
        assert(s1[s0.len() as int] == user);
        lemma_email_idx_is(s1, req.email@, s0.len() as int);
    }

    let token = match jwt.generate_token(user.id) {
        Ok(t) => t,
        Err(_) => {
            return Err(AuthError::TokenFailed);
        },
    };

    let cookie = auth_cookie(token.clone());
    Ok(
        AuthSuccess {
            user,
            token,
            cookie,
            message: "User registered successfully. Please check your email for verification.".to_owned(),
        },
    )
}

/// Logs an identity in: an unknown email and a wrong password collapse
/// to one generic failure; a proven credential on an unusable account is
/// the distinct forbidden failure; otherwise a token is issued and the
/// cookie described.  Success maps to 200.
pub fn login(store: &UserStore, jwt: &JwtService, req: &LoginRequest) -> (r: Result<
    AuthSuccess,
    AuthError,
>)
    ensures
        (match lookup_email(store.records(), req.email@) {
            None => r == Err::<AuthSuccess, AuthError>(AuthError::InvalidCredentials),
            Some(u) => {
                &&& !password_matches(req.password@, u.password_hash@) ==> r == Err::<
                    AuthSuccess,
                    AuthError,
                >(AuthError::InvalidCredentials)
                &&& password_matches(req.password@, u.password_hash@) && !u.usable() ==> r
                    == Err::<AuthSuccess, AuthError>(AuthError::AccountNotActive)
                &&& password_matches(req.password@, u.password_hash@) && u.usable() ==> (match r {
                    Ok(s) => {
                        &&& s.user == u
                        &&& token_for(jwt.secret_bytes(), s.token@, u.id)
                        &&& uuid_of(uuid_text(u.id)) == Some(u.id)
                        &&& is_auth_cookie(s.cookie, s.token@)
                        &&& s.message@ == "Login successful"@
                    },
                    Err(e) => e == AuthError::TokenFailed,
                })
            },
        }),
{
    login_with_lookup(jwt, store.find_by_email(req.email.as_str()), req.password.as_str())
}

/// Decides a login from the identity record an email lookup yielded (or
/// `None` for an unknown email), so the decision is one verified step
/// whatever performed the lookup.
pub fn login_with_lookup(jwt: &JwtService, lookup: Option<User>, password: &str) -> (r: Result<
    AuthSuccess,
    AuthError,
>)
    ensures
        (match lookup {
            None => r == Err::<AuthSuccess, AuthError>(AuthError::InvalidCredentials),
            Some(u) => {
                &&& !password_matches(password@, u.password_hash@) ==> r == Err::<
                    AuthSuccess,
                    AuthError,
                >(AuthError::InvalidCredentials)
                &&& password_matches(password@, u.password_hash@) && !u.usable() ==> r == Err::<
                    AuthSuccess,
                    AuthError,
                >(AuthError::AccountNotActive)
                &&& password_matches(password@, u.password_hash@) && u.usable() ==> (match r {
                    Ok(s) => {
                        &&& s.user == u
                        &&& token_for(jwt.secret_bytes(), s.token@, u.id)
                        &&& uuid_of(uuid_text(u.id)) == Some(u.id)
                        &&& is_auth_cookie(s.cookie, s.token@)
                        &&& s.message@ == "Login successful"@
                    },
                    Err(e) => e == AuthError::TokenFailed,
                })
            },
        }),
{
    let user = match lookup {
        Some(u) => u,
        None => {
            return Err(AuthError::InvalidCredentials);
        },
    };

    if !verify_password(password, user.password_hash.as_str()) {
        return Err(AuthError::InvalidCredentials);
    }

    if !user.is_active() {
        return Err(AuthError::AccountNotActive);
    }

    let token = match jwt.generate_token(user.id) {
        Ok(t) => t,
        Err(_) => {
            return Err(AuthError::TokenFailed);
        },
    };

    let cookie = auth_cookie(token.clone());
    Ok(AuthSuccess { user, token, cookie, message: "Login successful".to_owned() })
}

/// What logout hands back: the clearing cookie, the message and the
/// status.
#[derive(Debug)]
pub struct LogoutResponse {
    pub cookie: CookieSpec,
    pub message: String,
    pub status: u16,
}

/// Logs out: unconditionally instructs the client to discard the cookie
/// by overwriting it with an empty value.  There is no server-side state
/// to clear, so this always succeeds with 200.
pub fn logout() -> (r: LogoutResponse)
    ensures
        r.status == 200,
        r.message@ == "Logout successful"@,
        is_auth_cookie(r.cookie, Seq::<char>::empty()),
{
    let cookie = auth_cookie(String::new());
    LogoutResponse { cookie, message: "Logout successful".to_owned(), status: 200 }
}

/// The public projection of an identity: what responses carry.  The
/// password hash and the raw status are not part of it.
#[derive(Debug)]
pub struct PublicUser {
    pub id: String,
    pub email: String,
    pub username: String,
    pub email_verified: bool,
}

/// Projects an identity record for a response body.
pub fn public_projection(user: &User) -> (r: PublicUser)
    ensures
        r.id@ == uuid_text(user.id),
        r.email@ == user.email@,
        r.username@ == user.username@,
        r.email_verified == (user.email_verified_at is Some),
{
    PublicUser {
        id: crate::ids::format_user_id(user.id),
        email: user.email.clone(),
        username: user.username.clone(),
        email_verified: user.is_email_verified(),
    }
}

} // verus!

use matcha_auth::auth::{login, logout, register, AuthError, LoginRequest, RegisterRequest};
use matcha_auth::enums::AccountStatus;
use matcha_auth::middleware::auth::{resolve_session, Resolution, ResolveMode};
use matcha_auth::services::jwt::JwtService;
use matcha_auth::store::UserStore;

const SECRET: &str = "an-integration-test-secret-of-enough-length";

fn register_request(email: &str, username: &str, password: &str) -> RegisterRequest {
    RegisterRequest {
        email: email.to_string(),
        username: username.to_string(),
        password: password.to_string(),
        first_name: "Jo".to_string(),
        last_name: "Doe".to_string(),
    }
}

fn login_request(email: &str, password: &str) -> LoginRequest {
    LoginRequest { email: email.to_string(), password: password.to_string() }
}

#[test]
fn password_round_trip_through_register_and_login() {
    let mut store = UserStore::new();
    let jwt = JwtService::new(SECRET);

    register(&mut store, &jwt, &register_request("p@example.com", "pat", "Secret123!")).unwrap();

    // The right password verifies against the stored hash.
    assert!(login(&store, &jwt, &login_request("p@example.com", "Secret123!")).is_ok());
    // Any other password does not.
    assert_eq!(
        login(&store, &jwt, &login_request("p@example.com", "Secret123?")).unwrap_err(),
        AuthError::InvalidCredentials
    );
    assert_eq!(
        login(&store, &jwt, &login_request("p@example.com", "")).unwrap_err(),
        AuthError::InvalidCredentials
    );
}

#[test]
fn hashing_is_salted_but_both_hashes_verify() {
    let mut store = UserStore::new();
    let jwt = JwtService::new(SECRET);

    let first =
        register(&mut store, &jwt, &register_request("a@example.com", "ua", "Same-pass-1")).unwrap();
    let second =
        register(&mut store, &jwt, &register_request("b@example.com", "ub", "Same-pass-1")).unwrap();

    // Two hashes of the same password differ (fresh random salt each time)...
    assert_ne!(first.user.password_hash, second.user.password_hash);
    // ...yet both verify against that password.
    assert!(login(&store, &jwt, &login_request("a@example.com", "Same-pass-1")).is_ok());
    assert!(login(&store, &jwt, &login_request("b@example.com", "Same-pass-1")).is_ok());
}

#[test]
fn duplicate_email_conflicts_and_keeps_one_record() {
    let mut store = UserStore::new();
    let jwt = JwtService::new(SECRET);

    register(&mut store, &jwt, &register_request("dup@example.com", "first", "Secret123!"))
        .unwrap();
    let second = register(
        &mut store,
        &jwt,
        &register_request("dup@example.com", "second", "Other456?"),
    );
    assert_eq!(second.unwrap_err(), AuthError::EmailTaken);

    // Exactly one identity record carries that email.
    assert_eq!(store.count_active_users(), 1);
    let found = store.find_by_email("dup@example.com").unwrap();
    assert_eq!(found.username, "first");
}

#[test]
fn duplicate_username_conflicts() {
    let mut store = UserStore::new();
    let jwt = JwtService::new(SECRET);

    register(&mut store, &jwt, &register_request("a@example.com", "shared", "Secret123!"))
        .unwrap();
    let second =
        register(&mut store, &jwt, &register_request("b@example.com", "shared", "Secret123!"));
    assert_eq!(second.unwrap_err(), AuthError::UsernameTaken);
}

#[test]
fn missing_fields_are_a_validation_error() {
    let mut store = UserStore::new();
    let jwt = JwtService::new(SECRET);

    let r = register(&mut store, &jwt, &register_request("", "u", "p"));
    assert_eq!(r.unwrap_err(), AuthError::MissingFields);
    let r = register(&mut store, &jwt, &register_request("e@x.com", "", "p"));
    assert_eq!(r.unwrap_err(), AuthError::MissingFields);
    let r = register(&mut store, &jwt, &register_request("e@x.com", "u", ""));
    assert_eq!(r.unwrap_err(), AuthError::MissingFields);
    assert_eq!(AuthError::MissingFields.status_code(), 400);
}

#[test]
fn suspended_and_banned_accounts_get_forbidden_not_unauthorized() {
    let mut store = UserStore::new();
    let jwt = JwtService::new(SECRET);

    let ok = register(&mut store, &jwt, &register_request("s@example.com", "sam", "Secret123!"))
        .unwrap();
    store.update_account_status(ok.user.id, AccountStatus::Suspended).unwrap();
    let r = login(&store, &jwt, &login_request("s@example.com", "Secret123!"));
    assert_eq!(r.unwrap_err(), AuthError::AccountNotActive);
    assert_eq!(AuthError::AccountNotActive.status_code(), 403);

    store.update_account_status(ok.user.id, AccountStatus::Banned).unwrap();
    let r = login(&store, &jwt, &login_request("s@example.com", "Secret123!"));
    assert_eq!(r.unwrap_err(), AuthError::AccountNotActive);

    // A wrong password on the same account stays the generic outcome.
    let r = login(&store, &jwt, &login_request("s@example.com", "wrong"));
    assert_eq!(r.unwrap_err(), AuthError::InvalidCredentials);
    assert_eq!(AuthError::InvalidCredentials.status_code(), 401);
}

#[test]
fn status_codes_and_messages_follow_the_mapping_table() {
    assert_eq!(AuthError::MissingFields.status_code(), 400);
    assert_eq!(AuthError::InvalidCredentials.status_code(), 401);
    assert_eq!(AuthError::AccountNotActive.status_code(), 403);
    assert_eq!(AuthError::EmailTaken.status_code(), 409);
    assert_eq!(AuthError::UsernameTaken.status_code(), 409);
    assert_eq!(AuthError::HashingFailed.status_code(), 500);
    assert_eq!(AuthError::CreateFailed.status_code(), 500);
    assert_eq!(AuthError::TokenFailed.status_code(), 500);

    assert_eq!(AuthError::InvalidCredentials.message(), "Invalid username or password");
    assert_eq!(AuthError::AccountNotActive.message(), "Account is not active");
    assert_eq!(AuthError::EmailTaken.message(), "User with this email already exists");
    assert_eq!(AuthError::UsernameTaken.message(), "Username already taken");
    assert_eq!(
        AuthError::MissingFields.message(),
        "Email, username, and password are required"
    );
}

#[test]
fn logout_always_succeeds_and_clears_the_cookie() {
    let out = logout();
    assert_eq!(out.status, 200);
    assert_eq!(out.message, "Logout successful");
    assert_eq!(out.cookie.name, "auth_token");
    assert_eq!(out.cookie.value, "");
    assert!(out.cookie.http_only);
    assert!(out.cookie.same_site_strict);
    assert_eq!(out.cookie.path, "/");
}

#[test]
fn mandatory_resolution_rejects_every_broken_link() {
    let mut store = UserStore::new();
    let jwt = JwtService::new(SECRET);

    // Absent cookie header.
    assert!(matches!(
        resolve_session(&store, &jwt, ResolveMode::Mandatory, None),
        Resolution::Unauthorized
    ));
    // A header without the auth cookie.
    assert!(matches!(
        resolve_session(&store, &jwt, ResolveMode::Mandatory, Some("theme=dark")),
        Resolution::Unauthorized
    ));
    // A syntactically invalid token.
    assert!(matches!(
        resolve_session(&store, &jwt, ResolveMode::Mandatory, Some("auth_token=garbage")),
        Resolution::Unauthorized
    ));
    // A valid token for an identity that does not exist.
    let phantom = jwt.generate_token(0xdead_beef).unwrap();
    let header = format!("auth_token={}", phantom);
    assert!(matches!(
        resolve_session(&store, &jwt, ResolveMode::Mandatory, Some(&header)),
        Resolution::Unauthorized
    ));
    // A valid token for a soft-deleted identity.
    let ok = register(&mut store, &jwt, &register_request("d@example.com", "del", "Secret123!"))
        .unwrap();
    store.soft_delete(ok.user.id, 12_345).unwrap();
    let header = format!("auth_token={}", ok.token);
    assert!(matches!(
        resolve_session(&store, &jwt, ResolveMode::Mandatory, Some(&header)),
        Resolution::Unauthorized
    ));
}

#[test]
fn best_effort_resolution_never_rejects() {
    let mut store = UserStore::new();
    let jwt = JwtService::new(SECRET);

    for header in [None, Some("theme=dark"), Some("auth_token=garbage")] {
        match resolve_session(&store, &jwt, ResolveMode::BestEffort, header) {
            Resolution::Unauthorized => panic!("best effort must never reject"),
            Resolution::Anonymous => {},
            Resolution::Authenticated(_) => panic!("nothing to authenticate"),
        }
    }

    // With a valid session it attaches the context instead.
    let ok = register(&mut store, &jwt, &register_request("b@example.com", "bee", "Secret123!"))
        .unwrap();
    let header = format!("other=1; auth_token={}", ok.token);
    match resolve_session(&store, &jwt, ResolveMode::BestEffort, Some(&header)) {
        Resolution::Authenticated(ctx) => assert_eq!(ctx.user.id, ok.user.id),
        _ => panic!("expected an authenticated context"),
    }
    // Suspending the account takes effect on the very next request.
    store.update_account_status(ok.user.id, AccountStatus::Suspended).unwrap();
    match resolve_session(&store, &jwt, ResolveMode::BestEffort, Some(&header)) {
        Resolution::Anonymous => {},
        _ => panic!("suspended account must not resolve"),
    }
    match resolve_session(&store, &jwt, ResolveMode::Mandatory, Some(&header)) {
        Resolution::Unauthorized => {},
        _ => panic!("suspended account must be rejected in mandatory mode"),
    }
}

#[test]
fn end_to_end_register_login_wrong_password_suspend() {
    let mut store = UserStore::new();
    let jwt = JwtService::new(SECRET);

    // Register: created, stored record unverified, cookie attached.
    let created = register(
        &mut store,
        &jwt,
        &register_request("a@b.com", "u1", "Secret123!"),
    )
    .unwrap();
    assert_eq!(created.user.email, "a@b.com");
    assert!(created.user.email_verified_at.is_none());
    assert!(!created.user.is_email_verified());
    assert_eq!(created.cookie.name, "auth_token");
    assert_eq!(created.cookie.value, created.token);
    assert!(created.cookie.http_only && created.cookie.same_site_strict);
    assert_eq!(
        created.message,
        "User registered successfully. Please check your email for verification."
    );

    // Immediate login succeeds with a fresh token cookie.
    let logged_in = login(&store, &jwt, &login_request("a@b.com", "Secret123!")).unwrap();
    assert_eq!(logged_in.message, "Login successful");
    assert_eq!(logged_in.cookie.value, logged_in.token);
    assert!(!logged_in.token.is_empty());
    assert_eq!(jwt.extract_user_id(&logged_in.token).unwrap(), created.user.id);

    // Wrong password: the generic failure.
    let wrong = login(&store, &jwt, &login_request("a@b.com", "WrongPass1!"));
    let err = wrong.unwrap_err();
    assert_eq!(err, AuthError::InvalidCredentials);
    assert_eq!(err.status_code(), 401);
    assert_eq!(err.message(), "Invalid username or password");

    // Suspend the identity, then the same correct login is forbidden.
    store
        .update_account_status(created.user.id, AccountStatus::Suspended)
        .unwrap();
    let forbidden = login(&store, &jwt, &login_request("a@b.com", "Secret123!"));
    let err = forbidden.unwrap_err();
    assert_eq!(err, AuthError::AccountNotActive);
    assert_eq!(err.status_code(), 403);
}

use matcha_auth::auth::{register, RegisterRequest};
use matcha_auth::middleware::auth::{resolve_session, resolve_session_at, Resolution, ResolveMode};
use matcha_auth::services::jwt::{JwtService, TOKEN_LIFETIME_SECS};
use matcha_auth::store::UserStore;

const SECRET: &str = "an-integration-test-secret-of-enough-length";

fn registered_store() -> (UserStore, JwtService, String) {
    let mut store = UserStore::new();
    let jwt = JwtService::new(SECRET);
    let ok = register(
        &mut store,
        &jwt,
        &RegisterRequest {
            email: "s@example.com".to_string(),
            username: "sam".to_string(),
            password: "Secret123!".to_string(),
            first_name: "Sam".to_string(),
            last_name: "Doe".to_string(),
        },
    )
    .unwrap();
    let header = format!("auth_token={}", ok.token);
    (store, jwt, header)
}

#[test]
fn a_session_resolves_before_its_token_expires() {
    let (store, jwt, header) = registered_store();
    let now = chrono::Utc::now().timestamp();

    match resolve_session_at(&store, &jwt, ResolveMode::Mandatory, Some(&header), now) {
        Resolution::Authenticated(ctx) => assert_eq!(ctx.user.email, "s@example.com"),
        _ => panic!("an unexpired session must resolve"),
    }
    match resolve_session(&store, &jwt, ResolveMode::Mandatory, Some(&header)) {
        Resolution::Authenticated(_) => {},
        _ => panic!("an unexpired session must resolve against the clock too"),
    }
}

#[test]
fn an_expired_session_is_rejected_in_mandatory_mode() {
    let (store, jwt, header) = registered_store();
    let now = chrono::Utc::now().timestamp();
    let past_expiry = now + TOKEN_LIFETIME_SECS;

    assert!(matches!(
        resolve_session_at(&store, &jwt, ResolveMode::Mandatory, Some(&header), past_expiry),
        Resolution::Unauthorized
    ));
    // Best-effort only drops the context; it still never rejects.
    assert!(matches!(
        resolve_session_at(&store, &jwt, ResolveMode::BestEffort, Some(&header), past_expiry),
        Resolution::Anonymous
    ));
}

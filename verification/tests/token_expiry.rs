use matcha_auth::services::jwt::{JwtService, TokenError, TOKEN_LIFETIME_SECS};

const SECRET: &str = "an-integration-test-secret-of-enough-length";

#[test]
fn verification_succeeds_at_any_time_before_expiry() {
    let service = JwtService::new(SECRET);
    let t0: i64 = 1_700_000_000;
    let token = service.generate_token_at(42, t0).unwrap();

    for now in [t0, t0 + 1, t0 + TOKEN_LIFETIME_SECS / 2, t0 + TOKEN_LIFETIME_SECS - 1] {
        let claims = service.verify_token_at(&token, now).unwrap();
        assert_eq!(claims.iat, t0);
        assert_eq!(claims.exp, t0 + TOKEN_LIFETIME_SECS);
    }
}

#[test]
fn verification_fails_from_the_expiry_instant_on() {
    let service = JwtService::new(SECRET);
    let t0: i64 = 1_700_000_000;
    let token = service.generate_token_at(42, t0).unwrap();

    for now in [t0 + TOKEN_LIFETIME_SECS, t0 + TOKEN_LIFETIME_SECS + 1, i64::MAX] {
        assert_eq!(service.verify_token_at(&token, now).unwrap_err(), TokenError::Invalid);
    }
}

#[test]
fn issuing_succeeds_exactly_on_representable_clock_readings() {
    let service = JwtService::new(SECRET);
    assert!(service.generate_token_at(1, 0).is_ok());
    assert!(service.generate_token_at(1, i64::MAX - TOKEN_LIFETIME_SECS).is_ok());
    assert_eq!(
        service.generate_token_at(1, i64::MAX - TOKEN_LIFETIME_SECS + 1).unwrap_err(),
        TokenError::Creation
    );
    // A negative reading cannot be carried by the token format.
    assert_eq!(service.generate_token_at(1, -1).unwrap_err(), TokenError::Creation);
}

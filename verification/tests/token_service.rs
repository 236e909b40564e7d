use matcha_auth::services::jwt::{JwtService, TokenError, TOKEN_LIFETIME_SECS};

const SECRET: &str = "an-integration-test-secret-of-enough-length";

#[test]
fn issued_token_verifies_and_names_its_subject() {
    let service = JwtService::new(SECRET);
    let id: u128 = 0x1234_5678_9abc_def0_1122_3344_5566_7788;

    let token = service.generate_token(id).unwrap();
    let claims = service.verify_token(&token).unwrap();

    assert_eq!(claims.sub, uuid::Uuid::from_u128(id).to_string());
    assert_eq!(claims.exp, claims.iat + TOKEN_LIFETIME_SECS);
    assert_eq!(service.extract_user_id(&token).unwrap(), id);
}

#[test]
fn token_lifetime_is_thirty_days() {
    assert_eq!(TOKEN_LIFETIME_SECS, 30 * 24 * 60 * 60);
    let service = JwtService::new(SECRET);
    let now = chrono::Utc::now().timestamp();
    let token = service.generate_token_at(7, now).unwrap();
    let claims = service.verify_token(&token).unwrap();
    assert_eq!(claims.iat, now);
    assert_eq!(claims.exp, now + 30 * 24 * 60 * 60);
}

#[test]
fn tampered_signature_fails_verification() {
    let service = JwtService::new(SECRET);
    let token = service.generate_token(42).unwrap();

    // Flip the last character of the signature segment.
    let mut chars: Vec<char> = token.chars().collect();
    let last = *chars.last().unwrap();
    let flipped = if last == 'A' { 'B' } else { 'A' };
    *chars.last_mut().unwrap() = flipped;
    let tampered: String = chars.into_iter().collect();

    assert_eq!(service.verify_token(&tampered).unwrap_err(), TokenError::Invalid);
}

#[test]
fn tampered_payload_fails_verification() {
    let service = JwtService::new(SECRET);
    let token = service.generate_token(42).unwrap();

    let parts: Vec<&str> = token.split('.').collect();
    assert_eq!(parts.len(), 3);
    // Alter one character of the claims segment.
    let mut payload: Vec<char> = parts[1].chars().collect();
    let c = payload[0];
    payload[0] = if c == 'A' { 'B' } else { 'A' };
    let altered: String = payload.into_iter().collect();
    let tampered = format!("{}.{}.{}", parts[0], altered, parts[2]);

    assert_eq!(service.verify_token(&tampered).unwrap_err(), TokenError::Invalid);
}

#[test]
fn expired_token_fails_verification_despite_correct_signature() {
    let service = JwtService::new(SECRET);
    let now = chrono::Utc::now().timestamp();

    // Craft a correctly signed token whose expiry is well in the past.
    let mut payload = serde_json::Map::new();
    payload.insert(
        "sub".to_string(),
        serde_json::Value::String(uuid::Uuid::from_u128(42).to_string()),
    );
    payload.insert("iat".to_string(), serde_json::Value::from(now - 10_000));
    payload.insert("exp".to_string(), serde_json::Value::from(now - 3_600));
    let key = jsonwebtoken::EncodingKey::from_secret(SECRET.as_bytes());
    let expired = jsonwebtoken::encode(
        &jsonwebtoken::Header::default(),
        &serde_json::Value::Object(payload),
        &key,
    )
    .unwrap();

    // The same crafting with an expiry in the future verifies, so the
    // signature itself is good.
    let mut fresh_payload = serde_json::Map::new();
    fresh_payload.insert(
        "sub".to_string(),
        serde_json::Value::String(uuid::Uuid::from_u128(42).to_string()),
    );
    fresh_payload.insert("iat".to_string(), serde_json::Value::from(now));
    fresh_payload.insert("exp".to_string(), serde_json::Value::from(now + 3_600));
    let fresh = jsonwebtoken::encode(
        &jsonwebtoken::Header::default(),
        &serde_json::Value::Object(fresh_payload),
        &key,
    )
    .unwrap();

    assert!(service.verify_token(&fresh).is_ok());
    assert_eq!(service.verify_token(&expired).unwrap_err(), TokenError::Invalid);
}

#[test]
fn malformed_subject_fails_verification() {
    let service = JwtService::new(SECRET);
    let now = chrono::Utc::now().timestamp();

    // A correctly signed token whose subject names no identity.
    let mut payload = serde_json::Map::new();
    payload.insert("sub".to_string(), serde_json::Value::String("not-an-id".to_string()));
    payload.insert("iat".to_string(), serde_json::Value::from(now));
    payload.insert("exp".to_string(), serde_json::Value::from(now + 3_600));
    let key = jsonwebtoken::EncodingKey::from_secret(SECRET.as_bytes());
    let token = jsonwebtoken::encode(
        &jsonwebtoken::Header::default(),
        &serde_json::Value::Object(payload),
        &key,
    )
    .unwrap();

    assert_eq!(service.verify_token(&token).unwrap_err(), TokenError::Invalid);
    assert_eq!(service.extract_user_id(&token).unwrap_err(), TokenError::Invalid);
}

#[test]
fn garbage_token_fails_verification() {
    let service = JwtService::new(SECRET);
    assert_eq!(service.verify_token("not-a-token").unwrap_err(), TokenError::Invalid);
    assert_eq!(service.verify_token("").unwrap_err(), TokenError::Invalid);
    assert_eq!(service.extract_user_id("a.b.c").unwrap_err(), TokenError::Invalid);
}

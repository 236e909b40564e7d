use matcha_auth::auth::public_projection;
use matcha_auth::enums::AccountStatus;
use matcha_auth::models::User;
use matcha_auth::validation::base::{Schema, Validator};
use matcha_auth::validation::string::string;
use matcha_auth::validation::url::url;

#[test]
fn string_schema_enforces_lengths_and_allowed_values() {
    assert!(string().validate("").is_err());
    assert_eq!(string().optional().validate("").unwrap(), "");

    assert!(string().min_length(32).validate("short").is_err());
    assert_eq!(
        string().min_length(32).validate("0123456789abcdef0123456789abcdef").unwrap(),
        "0123456789abcdef0123456789abcdef"
    );

    assert!(string().max_length(4).validate("abcde").is_err());
    assert_eq!(string().max_length(4).validate("abcd").unwrap(), "abcd");

    let schema = string().allowed_values(vec!["red", "green", "blue"]);
    assert_eq!(schema.validate("blue").unwrap(), "blue");
    let schema = string().allowed_values(vec!["red", "green", "blue"]);
    assert!(schema.validate("yellow").is_err());
}

#[test]
fn url_schema_wants_a_scheme_marker() {
    assert_eq!(url().validate("https://example.com").unwrap(), Some("https://example.com".to_string()));
    assert_eq!(url().validate("postgres://db:5432/x").unwrap(), Some("postgres://db:5432/x".to_string()));
    assert!(url().validate("example.com").is_err());
    assert!(url().validate("http:/example.com").is_err());
    assert!(url().validate("").is_err());
    assert_eq!(url().optional().validate("").unwrap(), None);
}

#[test]
fn public_projection_hides_the_hash() {
    let id: u128 = 0xa1a2_a3a4_b1b2_c1c2_d1d2_d3d4_d5d6_d7d8;
    let user = User {
        id,
        email: "p@example.com".to_string(),
        username: "pat".to_string(),
        password_hash: "phc-string".to_string(),
        email_verified_at: None,
        account_status: AccountStatus::Active,
        created_at: 0,
        updated_at: 0,
        deleted_at: None,
    };
    let p = public_projection(&user);
    assert_eq!(p.id, uuid::Uuid::from_u128(id).to_string());
    assert_eq!(p.email, "p@example.com");
    assert_eq!(p.username, "pat");
    assert!(!p.email_verified);
}

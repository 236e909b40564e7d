use matcha_auth::enums::AccountStatus;
use matcha_auth::models::user::UserRowError;
use matcha_auth::models::User;

#[test]
fn test_user_struct_creation() {
    let user = User {
        id: uuid::Uuid::new_v4().as_u128(),
        email: "test@example.com".to_string(),
        username: "testuser".to_string(),
        password_hash: "hashed_password".to_string(),
        email_verified_at: Some(chrono::Utc::now().timestamp()),
        account_status: AccountStatus::Active,
        created_at: chrono::Utc::now().timestamp(),
        updated_at: chrono::Utc::now().timestamp(),
        deleted_at: None,
    };

    assert!(user.is_active());
    assert!(user.is_email_verified());
}

#[test]
fn from_row_parses_the_status_text() {
    let u = User::from_row(
        7,
        "a@x.com".to_string(),
        "ua".to_string(),
        "h".to_string(),
        None,
        Some("suspended".to_string()),
        100,
        101,
        None,
    )
    .unwrap();
    assert_eq!(u.account_status, AccountStatus::Suspended);
    assert_eq!(u.id, 7);
    assert!(!u.is_active());

    let missing = User::from_row(
        7,
        "a@x.com".to_string(),
        "ua".to_string(),
        "h".to_string(),
        None,
        None,
        100,
        101,
        None,
    );
    assert_eq!(missing.unwrap_err(), UserRowError::MissingStatus);

    let invalid = User::from_row(
        7,
        "a@x.com".to_string(),
        "ua".to_string(),
        "h".to_string(),
        None,
        Some("frozen".to_string()),
        100,
        101,
        None,
    );
    assert_eq!(invalid.unwrap_err(), UserRowError::InvalidStatus);
}

#[test]
fn deleted_or_non_active_records_are_not_usable() {
    let mut user = User {
        id: 1,
        email: "test@example.com".to_string(),
        username: "testuser".to_string(),
        password_hash: "h".to_string(),
        email_verified_at: None,
        account_status: AccountStatus::Active,
        created_at: 0,
        updated_at: 0,
        deleted_at: Some(5),
    };
    assert!(!user.is_active());
    assert!(!user.is_email_verified());

    user.deleted_at = None;
    assert!(user.is_active());
    user.account_status = AccountStatus::Banned;
    assert!(!user.is_active());
}

use matcha_auth::enums::Environment;
use matcha_auth::validation::base::Schema;
use matcha_auth::validation::base::Validator;
use matcha_auth::validation::enum_schema::enum_value;
use matcha_auth::validation::enums::enums;

#[test]
fn enums_validates_environment_enum() {
    let schema = enums::<Environment>();

    // Test valid lowercase values
    assert!(schema.validate("development").is_ok());
    assert!(schema.validate("production").is_ok());
    assert!(schema.validate("test").is_ok());

    // Test invalid values
    assert!(schema.validate("invalid").is_err());
    assert!(schema.validate("dev").is_err());
    assert!(schema.validate("").is_err());
}

#[test]
fn enums_test_enum_validation_with_strum() {
    let schema = enums::<Environment>();

    assert_eq!(schema.validate("development").unwrap(), Some(Environment::Development));
    assert_eq!(schema.validate("production").unwrap(), Some(Environment::Production));
    assert_eq!(schema.validate("test").unwrap(), Some(Environment::Test));

    // Test error messages
    let result = schema.validate("invalid");
    assert!(result.is_err());
    if let Err(error) = result {
        assert_eq!(error.field, "enums");
        assert!(error.message.contains("Invalid enum value"));
    }
}

#[test]
fn enums_test_enum_validation_error_messages() {
    let schema = enums::<Environment>();

    let result = schema.validate("invalid");
    assert!(result.is_err());

    if let Err(error) = result {
        assert_eq!(error.field, "enums");
        assert!(error.message.contains("Invalid enum value"));
    }
}

#[test]
fn enum_schema_validates_environment_enum() {
    let schema = enum_value::<Environment>();

    // Test valid lowercase values
    assert!(schema.validate("development").is_ok());
    assert!(schema.validate("production").is_ok());
    assert!(schema.validate("test").is_ok());

    // Test invalid values
    assert!(schema.validate("invalid").is_err());
    assert!(schema.validate("dev").is_err());
    assert!(schema.validate("").is_err());
}

#[test]
fn enum_schema_test_enum_validation_with_strum() {
    let schema = enum_value::<Environment>();

    assert_eq!(schema.validate("development").unwrap(), Environment::Development);
    assert_eq!(schema.validate("production").unwrap(), Environment::Production);
    assert_eq!(schema.validate("test").unwrap(), Environment::Test);

    // Test error messages
    let result = schema.validate("invalid");
    assert!(result.is_err());
    if let Err(error) = result {
        assert_eq!(error.field, "value");
        assert!(error.message.contains("Invalid enum value"));
    }
}

#[test]
fn enum_schema_test_enum_validation_error_messages() {
    let schema = enum_value::<Environment>();

    let result = schema.validate("invalid");
    assert!(result.is_err());

    if let Err(error) = result {
        assert_eq!(error.field, "value");
        assert!(error.message.contains("Invalid enum value"));
    }
}

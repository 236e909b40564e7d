use matcha_auth::enums::Environment;

#[test]
fn environment_parses_enum_from_str() {
    assert_eq!("development".parse(), Ok(Environment::Development));
    assert_eq!("production".parse(), Ok(Environment::Production));
    assert_eq!("test".parse(), Ok(Environment::Test));
    assert!("invalid".parse::<Environment>().is_err());
}

#[test]
fn environment_displays_all_values() {
    assert_eq!(Environment::Development.as_str(), "development");
    assert_eq!(Environment::Production.as_str(), "production");
    assert_eq!(Environment::Test.as_str(), "test");
}

#[test]
fn environment_iterates_all_values() {
    let values: Vec<Environment> = Environment::all_values();
    assert_eq!(values.len(), 3);
    assert!(values.contains(&Environment::Development));
    assert!(values.contains(&Environment::Production));
    assert!(values.contains(&Environment::Test));
}

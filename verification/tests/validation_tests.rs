use gsmtui::validation::validate_secret_name;

#[test]
fn test_valid_secret_names() {
    assert!(validate_secret_name("my-secret").is_ok());
    assert!(validate_secret_name("my_secret").is_ok());
    assert!(validate_secret_name("MySecret123").is_ok());
    assert!(validate_secret_name("a").is_ok());
    assert!(validate_secret_name("API_KEY").is_ok());
}

#[test]
fn test_invalid_secret_names() {
    assert!(validate_secret_name("").is_err());
    assert!(validate_secret_name("123secret").is_err()); // Starts with number
    assert!(validate_secret_name("-secret").is_err()); // Starts with hyphen
    assert!(validate_secret_name("secret-").is_err()); // Ends with hyphen
    assert!(validate_secret_name("my secret").is_err()); // Contains space
    assert!(validate_secret_name("my.secret").is_err()); // Contains period
}

#[test]
fn test_max_length_passes() {
    // 255 characters should be valid (the store's maximum)
    let name = format!("a{}", "b".repeat(254));
    assert_eq!(name.len(), 255);
    assert!(validate_secret_name(&name).is_ok());
}

#[test]
fn test_over_max_length_fails() {
    // 256 characters should fail
    let name = format!("a{}", "b".repeat(255));
    assert_eq!(name.len(), 256);
    assert!(validate_secret_name(&name).is_err());
}

#[test]
fn test_unicode_rejected() {
    // Secret names must be ASCII-only
    assert!(validate_secret_name("caf\u{e9}").is_err());
    assert!(validate_secret_name("\u{65e5}\u{672c}\u{8a9e}").is_err());
    assert!(validate_secret_name("emoji\u{1f389}").is_err());
}

#[test]
fn test_validation_error_messages() {
    assert_eq!(
        validate_secret_name("").unwrap_err(),
        "Secret name cannot be empty"
    );
    let long = "a".repeat(256);
    assert_eq!(
        validate_secret_name(&long).unwrap_err(),
        "Secret name must be 255 characters or less"
    );
    assert_eq!(
        validate_secret_name("123secret").unwrap_err(),
        "Secret name must start with a letter"
    );
    assert_eq!(
        validate_secret_name("my secret").unwrap_err(),
        "Secret name can only contain letters, digits, underscores, and hyphens. Found: ' '"
    );
    assert_eq!(
        validate_secret_name("secret-").unwrap_err(),
        "Secret name cannot end with a hyphen"
    );
}

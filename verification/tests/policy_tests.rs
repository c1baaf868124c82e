use accounts_core::policy::{validate_password, validate_user_fields};

#[test]
fn password_too_short() {
    let r = validate_password("Ab1!");
    assert_eq!(r, Err("Password must be at least 8 characters long".to_string()));
    assert_eq!(
        validate_password("short1!"),
        Err("Password must be at least 8 characters long".to_string())
    );
}

#[test]
fn password_needs_uppercase() {
    assert_eq!(
        validate_password("alllowercase1!"),
        Err("Password must contain at least one uppercase letter".to_string())
    );
}

#[test]
fn password_needs_lowercase() {
    assert_eq!(
        validate_password("ALLUPPER1!"),
        Err("Password must contain at least one lowercase letter".to_string())
    );
}

#[test]
fn password_needs_digit() {
    assert_eq!(
        validate_password("NoDigits!"),
        Err("Password must contain at least one number".to_string())
    );
}

#[test]
fn password_needs_special() {
    assert_eq!(
        validate_password("NoSpecial1"),
        Err("Password must contain at least one special character".to_string())
    );
}

#[test]
fn password_accepted() {
    assert_eq!(validate_password("Valid1Pass!"), Ok(()));
}

#[test]
fn fields_all_absent_pass() {
    assert_eq!(validate_user_fields(None, None, None, None), Ok(()));
}

#[test]
fn fields_short_username_rejected() {
    assert_eq!(
        validate_user_fields(Some("ab"), Some("Jane"), Some("Doe"), Some("a@x.com")),
        Err("Username must be at least 3 characters long".to_string())
    );
}

#[test]
fn fields_short_first_name_rejected() {
    assert_eq!(
        validate_user_fields(Some("janedoe"), Some("Jo"), Some("Doe"), Some("a@x.com")),
        Err("First name must be at least 3 characters long".to_string())
    );
}

#[test]
fn fields_short_last_name_rejected() {
    assert_eq!(
        validate_user_fields(Some("janedoe"), Some("Jane"), Some("Do"), Some("a@x.com")),
        Err("Last name must be at least 3 characters long".to_string())
    );
}

#[test]
fn fields_short_email_rejected() {
    assert_eq!(
        validate_user_fields(Some("janedoe"), Some("Jane"), Some("Doe"), Some("ab")),
        Err("Email must be at least 3 characters long".to_string())
    );
}

#[test]
fn fields_valid_pass() {
    assert_eq!(
        validate_user_fields(Some("janedoe"), Some("Jane"), Some("Doe"), Some("jane@x.com")),
        Ok(())
    );
}

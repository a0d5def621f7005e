use chorus::api::schemas::{AuthEmail, AuthPassword, AuthUsername, LoginSchema, RegisterSchema};
use chorus::errors::FieldFormatError;

#[test]
fn password_too_short() {
    assert_eq!(
        AuthPassword::new("".to_string()),
        Err(FieldFormatError::PasswordError)
    );
}

#[test]
fn password_too_long() {
    let mut long_pw = String::new();
    for _ in 0..73 {
        long_pw += "a";
    }
    assert_eq!(
        AuthPassword::new(long_pw),
        Err(FieldFormatError::PasswordError)
    );
}

#[test]
fn username_too_short() {
    assert_eq!(
        AuthUsername::new("T".to_string()),
        Err(FieldFormatError::UsernameError)
    );
}

#[test]
fn username_too_long() {
    let mut long_un = String::new();
    for _ in 0..33 {
        long_un += "a";
    }
    assert_eq!(
        AuthUsername::new(long_un),
        Err(FieldFormatError::UsernameError)
    );
}

#[test]
fn consent_false() {
    assert_eq!(
        RegisterSchema::new(
            AuthUsername::new("Test".to_string()).unwrap(),
            None,
            false,
            None,
            None,
            None,
            None,
            None,
            None,
            None,
        ),
        Err(FieldFormatError::ConsentError)
    );
}

#[test]
fn invalid_email() {
    assert_eq!(
        AuthEmail::new("p@p.p".to_string()),
        Err(FieldFormatError::EmailError)
    )
}

#[test]
fn valid_email() {
    let reg = RegisterSchema::new(
        AuthUsername::new("Testy".to_string()).unwrap(),
        None,
        true,
        Some(AuthEmail::new("me@mail.de".to_string()).unwrap()),
        None,
        None,
        None,
        None,
        None,
        None,
    );
    assert_ne!(reg, Err(FieldFormatError::EmailError));
}

#[test]
fn lengths_count_characters() {
    assert_eq!(
        AuthUsername::new("é".to_string()),
        Err(FieldFormatError::UsernameError)
    );
    assert!(AuthUsername::new("é".repeat(17)).is_ok());
    assert!(AuthUsername::new("é".repeat(32)).is_ok());
    assert!(AuthUsername::new("é".repeat(33)).is_err());
    assert!(AuthPassword::new("é".repeat(40)).is_ok());
    assert!(AuthPassword::new("é".repeat(72)).is_ok());
    assert_eq!(
        AuthPassword::new("é".repeat(73)),
        Err(FieldFormatError::PasswordError)
    );
}

fn register(username: &str, password: Option<&str>, consent: bool) -> Result<RegisterSchema, FieldFormatError> {
    RegisterSchema::new(
        AuthUsername { username: username.to_string() },
        password.map(|p| AuthPassword { password: p.to_string() }),
        consent,
        None,
        None,
        None,
        None,
        None,
        None,
        None,
    )
}

#[test]
fn registration_checks_fields() {
    assert_eq!(register("x", None, true), Err(FieldFormatError::UsernameError));
    assert_eq!(register("xy", Some(""), true), Err(FieldFormatError::PasswordError));
    assert_eq!(register("x", Some(""), false), Err(FieldFormatError::ConsentError));
    assert!(register("xy", Some("secret"), true).is_ok());
    assert!(register("xy", None, true).is_ok());
}

#[test]
fn login_checks_username() {
    let short = LoginSchema::new(
        AuthUsername { username: "x".to_string() },
        "pw".to_string(),
        None,
        None,
        None,
        None,
    );
    assert_eq!(short, Err(FieldFormatError::UsernameError));
    let ok = LoginSchema::new(
        AuthUsername::new("Testy".to_string()).unwrap(),
        "pw".to_string(),
        None,
        None,
        None,
        None,
    );
    assert!(ok.is_ok());
}

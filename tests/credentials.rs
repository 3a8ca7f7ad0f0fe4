use auth_service::email::{Email, EmailError};
use auth_service::password::{HashedPassword, Password, PasswordError};

#[test]
fn email_empty_string_is_rejected() {
    assert!(Email::parse("".to_owned()).is_err());
}

#[test]
fn email_missing_at_symbol_is_rejected() {
    assert!(Email::parse("ursuladomain.com".to_owned()).is_err());
}

#[test]
fn email_missing_subject_is_rejected() {
    assert!(Email::parse("@domain.com".to_owned()).is_err());
}

#[test]
fn email_without_dot_in_domain_is_rejected() {
    assert_eq!(Email::parse("ursula@localhost".to_owned()).unwrap_err(), EmailError::InvalidFormat);
}

#[test]
fn email_dot_only_before_at_is_rejected() {
    assert!(Email::parse("ursula.k@domain".to_owned()).is_err());
}

#[test]
fn valid_emails_are_parsed_successfully() {
    for raw in ["a@b.com", "test@example.com", "first.last+tag@mail.example.org", "user_1@sub.domain.io"] {
        let email = Email::parse(raw.to_owned()).expect("valid email");
        assert_eq!(email.as_str(), raw);
    }
}

#[test]
fn password_empty_string_is_rejected() {
    assert!(Password::parse("".to_owned()).is_err());
}

#[test]
fn string_less_than_8_characters_is_rejected() {
    assert_eq!(Password::parse("1234567".to_owned()).unwrap_err(), PasswordError::TooShort);
}

#[test]
fn string_of_8_characters_is_accepted() {
    assert_eq!(Password::parse("12345678".to_owned()).unwrap().as_str(), "12345678");
}

#[test]
fn can_build_password_from_valid_hash() {
    let raw = Password::parse("StrongPass123".to_owned()).unwrap();
    let hashed = HashedPassword::from_raw(&raw).unwrap();

    let password = HashedPassword::from_password_hash(hashed.as_str()).expect("Should create Password from hash");

    let stored_value = password.as_str();
    assert!(stored_value.starts_with("$argon2id$v=19$m=15000"));
    assert!(stored_value.contains("p=1"));
    assert!(password.verify(&raw));
}

#[test]
fn invalid_hash_string_is_rejected() {
    assert_eq!(HashedPassword::from_password_hash("not a hash").unwrap_err(), PasswordError::InvalidHash);
}

#[test]
fn hash_accepts_same_password_and_rejects_other() {
    let raw = Password::parse("password1".to_owned()).unwrap();
    let other = Password::parse("password2".to_owned()).unwrap();
    let hashed = HashedPassword::from_raw(&raw).unwrap();
    assert_ne!(hashed.as_str(), raw.as_str());
    assert!(hashed.verify(&raw));
    assert!(!hashed.verify(&other));
}

#[test]
fn hashed_password_parse_checks_length() {
    assert_eq!(HashedPassword::parse("short".to_owned()).unwrap_err(), PasswordError::TooShort);
    let hashed = HashedPassword::parse("longenough".to_owned()).unwrap();
    assert!(hashed.verify(&Password::parse("longenough".to_owned()).unwrap()));
}

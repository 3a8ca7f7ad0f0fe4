use auth_service::two_fa::{LoginAttemptId, LoginAttemptIdError, TwoFACode, TwoFACodeError};
use std::str::FromStr;

#[test]
fn code_must_be_six_digits() {
    assert!(TwoFACode::from_str("123456").is_ok());
    assert_eq!(TwoFACode::from_str("12345").unwrap_err(), TwoFACodeError::Invalid);
    assert_eq!(TwoFACode::from_str("1234567").unwrap_err(), TwoFACodeError::Invalid);
    assert_eq!(TwoFACode::from_str("").unwrap_err(), TwoFACodeError::Invalid);
}

#[test]
fn code_must_be_numeric() {
    assert_eq!(TwoFACode::from_str("12a456").unwrap_err(), TwoFACodeError::Invalid);
    assert_eq!(TwoFACode::from_str("12 456").unwrap_err(), TwoFACodeError::Invalid);
}

#[test]
fn default_code_is_valid() {
    for _ in 0..20 {
        let code = TwoFACode::default();
        assert_eq!(code.as_str().len(), 6);
        assert!(code.as_str().parse::<TwoFACode>().is_ok());
        assert!(code.as_str() >= "100000");
    }
}

#[test]
fn attempt_id_parses_uuid() {
    let id = LoginAttemptId::parse("550E8400-E29B-41D4-A716-446655440000").unwrap();
    assert_eq!(id.as_str(), "550e8400-e29b-41d4-a716-446655440000");
    assert_eq!(LoginAttemptId::parse("nope").unwrap_err(), LoginAttemptIdError::InvalidUuid);
}

#[test]
fn default_attempt_id_round_trips() {
    let id = LoginAttemptId::default();
    let parsed = LoginAttemptId::from_str(id.as_str()).unwrap();
    assert_eq!(parsed, id);
    assert_ne!(LoginAttemptId::default(), id);
}

#[test]
fn code_from_number_is_its_decimal_form() {
    assert_eq!(TwoFACode::from_number(123456).as_str(), "123456");
    assert_eq!(TwoFACode::from_number(999998).as_str(), "999998");
    assert_eq!(TwoFACode::from_number(42).as_str(), "000042");
    let code = TwoFACode::from_number(100000);
    assert_eq!(code, "100000".parse::<TwoFACode>().unwrap());
}

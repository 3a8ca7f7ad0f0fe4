use auth_service::email::Email;
use auth_service::token::{
    generate_auth_token, issue_auth_token, validate_token, validate_token_at, GenerateTokenError,
    JwtSecret, Token, TokenError, TOKEN_TTL_SECONDS,
};

fn secret() -> JwtSecret {
    JwtSecret::new("test-signing-secret").unwrap()
}

fn email(s: &str) -> Email {
    Email::parse(s.to_owned()).unwrap()
}

#[test]
fn empty_secret_is_refused() {
    assert!(JwtSecret::new("").is_none());
    assert!(JwtSecret::new("x").is_some());
}

#[test]
fn test_generate_auth_token() {
    let result = generate_auth_token(&email("test@example.com"), &secret()).unwrap();
    assert_eq!(result.as_str().split('.').count(), 3);
}

#[test]
fn test_validate_token_with_valid_token() {
    let secret = secret();
    let token = generate_auth_token(&email("test@example.com"), &secret).unwrap();
    let result = validate_token(&token, &secret).unwrap();
    assert_eq!(result.sub, "test@example.com");

    let exp = chrono::Utc::now().timestamp() + 9 * 60;
    assert!(result.exp > exp as usize);
}

#[test]
fn test_validate_token_with_invalid_token() {
    let token = Token::from("invalid_token".to_owned());
    let result = validate_token(&token, &secret());
    assert!(result.is_err());
    assert_eq!(result.unwrap_err(), TokenError::Malformed);
}

#[test]
fn issued_token_validates_with_subject_and_future_expiry() {
    let secret = secret();
    let now: i64 = 1_700_000_000;
    let token = issue_auth_token(&email("a@b.com"), now, &secret).unwrap();
    let claims = validate_token_at(&token, now, &secret).unwrap();
    assert_eq!(claims.sub, "a@b.com");
    assert_eq!(claims.exp, (now + TOKEN_TTL_SECONDS) as usize);
    assert!(claims.exp as i64 > now);
}

#[test]
fn token_expires_after_ttl() {
    let secret = secret();
    let now: i64 = 1_700_000_000;
    let token = issue_auth_token(&email("a@b.com"), now, &secret).unwrap();
    assert!(validate_token_at(&token, now + 599, &secret).is_ok());
    assert_eq!(validate_token_at(&token, now + 600, &secret).unwrap_err(), TokenError::Expired);
}

#[test]
fn same_inputs_give_same_token() {
    let secret = secret();
    let a = issue_auth_token(&email("a@b.com"), 1000, &secret).unwrap();
    let b = issue_auth_token(&email("a@b.com"), 1000, &secret).unwrap();
    let c = issue_auth_token(&email("a@b.com"), 1001, &secret).unwrap();
    assert_eq!(a, b);
    assert_ne!(a, c);
}

#[test]
fn tampered_token_fails_signature_check() {
    let secret = secret();
    let now: i64 = 1_700_000_000;
    let token = issue_auth_token(&email("a@b.com"), now, &secret).unwrap();
    let text = token.as_str().to_owned();
    let sig_start = text.rfind('.').unwrap() + 1;
    let mut bytes = text.into_bytes();
    bytes[sig_start] = if bytes[sig_start] == b'A' { b'B' } else { b'A' };
    let tampered = Token::from(String::from_utf8(bytes).unwrap());
    assert_eq!(validate_token_at(&tampered, now, &secret).unwrap_err(), TokenError::SignatureInvalid);
}

#[test]
fn token_signed_with_other_secret_is_refused() {
    let now: i64 = 1_700_000_000;
    let token = issue_auth_token(&email("a@b.com"), now, &JwtSecret::new("other").unwrap()).unwrap();
    assert_eq!(validate_token_at(&token, now, &secret()).unwrap_err(), TokenError::SignatureInvalid);
}

#[test]
fn negative_expiry_is_an_unexpected_error() {
    let result = issue_auth_token(&email("a@b.com"), -601, &secret());
    assert!(matches!(result, Err(GenerateTokenError::UnexpectedError)));
    let result = issue_auth_token(&email("a@b.com"), i64::MAX, &secret());
    assert!(matches!(result, Err(GenerateTokenError::UnexpectedError)));
}

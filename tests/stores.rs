use auth_service::banned_token_store::HashSetBannedTokenStore;
use auth_service::email::Email;
use auth_service::password::{HashedPassword, Password};
use auth_service::stores::{
    BannedTokenResult, BannedTokenStore, TwoFACodeStore, TwoFACodeStoreError, UserStore, UserStoreError,
};
use auth_service::token::Token;
use auth_service::two_fa::{LoginAttemptId, TwoFACode};
use auth_service::two_fa_code_store::HashMapTwoFACodeStore;
use auth_service::user::User;
use auth_service::user_store::HashMapUserStore;
use std::str::FromStr;

fn email(s: &str) -> Email {
    Email::parse(s.to_owned()).expect("valid email")
}

fn password(s: &str) -> Password {
    Password::parse(s.to_owned()).expect("valid password")
}

fn hashed(s: &str) -> HashedPassword {
    HashedPassword::parse(s.to_owned()).unwrap()
}

fn user_fixture() -> HashMapUserStore {
    let mut store = HashMapUserStore::default();
    store.add_user(User::new(email("test@example.com"), hashed("password123"), false)).unwrap();
    store.add_user(User::new(email("test2@example.com"), hashed("password234"), true)).unwrap();
    store
}

#[test]
fn test_add_user() {
    let mut user_store = HashMapUserStore::default();
    let user = User { email: email("test@example.com"), password: hashed("password"), requires_2fa: false };

    let result = user_store.add_user(user.clone());
    assert!(result.is_ok());
    assert_eq!(user_store.len(), 1);

    let result = user_store.add_user(user);
    assert_eq!(result, Err(UserStoreError::UserAlreadyExists));
    assert_eq!(user_store.len(), 1);
}

#[test]
fn test_get_user() {
    let mut user_store = HashMapUserStore::default();
    let user = User { email: email("test@example.com"), password: hashed("password"), requires_2fa: false };
    user_store.add_user(user.clone()).unwrap();

    let result = user_store.get_user(&email("test@example.com"));
    assert_eq!(result, Ok(user));

    let result = user_store.get_user(&email("nonexistent@example.com"));
    assert_eq!(result.unwrap_err(), UserStoreError::UserNotFound);
}

#[test]
fn test_validate_user() {
    let mut user_store = HashMapUserStore::default();
    let user = User { email: email("test@example.com"), password: hashed("password"), requires_2fa: false };
    user_store.add_user(user.clone()).unwrap();

    let result = user_store.validate_user(&email("test@example.com"), &password("password"));
    assert_eq!(result, Ok(user));

    let result = user_store.validate_user(&email("test@example.com"), &password("wrongpassword"));
    assert_eq!(result.unwrap_err(), UserStoreError::IncorrectCredentials);

    let result = user_store.validate_user(&email("nonexistent@example.com"), &password("password"));
    assert_eq!(result.unwrap_err(), UserStoreError::UserNotFound);
}

#[test]
fn test_add_new_user_succeeds() {
    let mut store = user_fixture();
    let new_user = User::new(email("test3@example.com"), hashed("password345"), false);
    assert!(store.add_user(new_user).is_ok());
    assert_eq!(store.len(), 3);
}

#[test]
fn test_add_existing_user_fails() {
    let mut store = user_fixture();
    let new_user = User::new(email("test@example.com"), hashed("password123"), false);
    assert_eq!(
        UserStoreError::UserAlreadyExists,
        store.add_user(new_user).expect_err("New user should already exist in fixture")
    );
    assert_eq!(store.len(), 2);
}

#[test]
fn test_get_user_by_existing_email_succeeds() {
    let store = user_fixture();
    let address = email("test@example.com");
    let user = store.get_user(&address).expect("Test user should already exist in fixture");
    assert_eq!(user.email, address);
}

#[test]
fn test_get_user_by_nonexistent_email_fails() {
    let store = user_fixture();
    assert_eq!(
        UserStoreError::UserNotFound,
        store.get_user(&email("nope@example.com")).expect_err("Test user should not exist in fixture")
    );
}

#[test]
fn test_validate_unknown_user_fails() {
    let store = user_fixture();
    assert_eq!(
        UserStoreError::UserNotFound,
        store
            .validate_user(&email("nope@example.com"), &password("password123"))
            .expect_err("Test user should not exist in fixture")
    );
}

#[test]
fn test_validate_user_with_correct_credentials_succeeds() {
    let store = user_fixture();
    assert!(store.validate_user(&email("test@example.com"), &password("password123")).is_ok());
}

#[test]
fn test_validate_user_with_incorrect_credentials_fails() {
    let store = user_fixture();
    assert_eq!(
        UserStoreError::IncorrectCredentials,
        store
            .validate_user(&email("test@example.com"), &password("wrong_password_long"))
            .expect_err("Test user should not exist in fixture")
    );
}

#[test]
fn test_delete_user_by_existing_email_succeeds() {
    let mut store = user_fixture();
    let deleted = store.delete_user(&email("test@example.com")).unwrap();
    assert_eq!(deleted.email, email("test@example.com"));
    assert_eq!(store.len(), 1);
    assert_eq!(store.get_user(&email("test@example.com")).unwrap_err(), UserStoreError::UserNotFound);
    assert!(store.get_user(&email("test2@example.com")).is_ok());
}

#[test]
fn test_delete_user_by_nonexistent_email_fails() {
    let mut store = user_fixture();
    assert_eq!(
        UserStoreError::UserNotFound,
        store.delete_user(&email("nope@example.com")).expect_err("Test user should not exist in fixture")
    );
    assert_eq!(store.len(), 2);
}

fn banned_fixture(tokens: &[&str]) -> HashSetBannedTokenStore {
    let mut store = HashSetBannedTokenStore::default();
    for t in tokens {
        store.ban(Token::from(t.to_string()));
    }
    store
}

#[test]
fn test_add_token() {
    let mut store = HashSetBannedTokenStore::default();
    let token = Token::from("test_token".to_owned());
    assert_eq!(store.ban(token.clone()), BannedTokenResult::TokenBanned);
    assert!(store.is_banned(&token));
}

#[test]
fn test_contains_token() {
    let store = banned_fixture(&["test_token"]);
    assert!(store.is_banned(&Token::from("test_token".to_owned())));
}

#[test]
fn test_ban() {
    let mut store = banned_fixture(&["bad", "verybad"]);
    let token = Token::from("superbad".to_owned());
    assert_eq!(store.ban(token.clone()), BannedTokenResult::TokenBanned);
    assert!(store.is_banned(&token));
    assert_eq!(store.len(), 3);
}

#[test]
fn test_ban_already_banned() {
    let mut store = banned_fixture(&["bad", "verybad"]);
    let token = Token::from("bad".to_owned());
    assert_eq!(store.ban(token.clone()), BannedTokenResult::TokenAlreadyBanned);
    assert!(store.is_banned(&token));
    assert_eq!(store.len(), 2);
}

#[test]
fn test_unban() {
    let mut store = banned_fixture(&["bad", "verybad"]);
    let token = Token::from("bad".to_owned());
    assert_eq!(store.unban(&token), BannedTokenResult::TokenUnbanned);
    assert!(!store.is_banned(&token));
    assert!(store.is_banned(&Token::from("verybad".to_owned())));
}

#[test]
fn test_unban_not_banned() {
    let mut store = banned_fixture(&["bad", "verybad"]);
    let token = Token::from("superbad".to_owned());
    assert_eq!(store.unban(&token), BannedTokenResult::TokenNotBanned);
    assert!(!store.is_banned(&token));
    assert_eq!(store.len(), 2);
}

fn codes_fixture(entries: Vec<(Email, LoginAttemptId, TwoFACode)>) -> HashMapTwoFACodeStore {
    let mut store = HashMapTwoFACodeStore::default();
    for (email, attempt_id, code) in entries {
        store.add(email, attempt_id, code).unwrap();
    }
    store
}

#[test]
fn test_add_new_code_succeeds() {
    let existing_code =
        (email("test@example.com"), LoginAttemptId::default(), TwoFACode::from_str("123456").expect("valid 2FA code"));
    codes_fixture(vec![existing_code]);
}

#[test]
fn test_get_code_by_existing_email_succeeds() {
    let address = email("test@example.com");
    let attempt_id = LoginAttemptId::default();
    let code: TwoFACode = "123456".parse().expect("valid 2FA code");
    let store = codes_fixture(vec![(address.clone(), attempt_id.clone(), code.clone())]);
    let record = store.get(&address).expect("Failed to find existing code in store");
    assert_eq!(record.0, attempt_id);
    assert_eq!(record.1, code);
}

#[test]
fn test_get_by_nonexistent_email_fails() {
    let store = codes_fixture(vec![]);
    assert_eq!(
        TwoFACodeStoreError::EmailNotFound,
        store.get(&email("nope@example.com")).expect_err("Test user should not exist in fixture")
    );
}

#[test]
fn test_remove_by_existing_email_succeeds() {
    let address = email("test@example.com");
    let mut store =
        codes_fixture(vec![(address.clone(), Default::default(), "123456".parse().expect("valid 2A code"))]);
    assert!(store.remove(&address).is_ok());
    assert_eq!(store.get(&address).unwrap_err(), TwoFACodeStoreError::EmailNotFound);
}

#[test]
fn test_remove_by_nonexistent_email_fails() {
    let mut store = codes_fixture(vec![]);
    assert_eq!(
        TwoFACodeStoreError::EmailNotFound,
        store.remove(&email("nope@example.com")).expect_err("Test user should not exist in fixture")
    );
}

#[test]
fn second_add_for_same_email_replaces_challenge() {
    let address = email("test@example.com");
    let first = LoginAttemptId::default();
    let second = LoginAttemptId::default();
    let mut store = codes_fixture(vec![(address.clone(), first.clone(), "111111".parse().unwrap())]);
    store.add(address.clone(), second.clone(), "222222".parse().unwrap()).unwrap();
    let record = store.get(&address).unwrap();
    assert_eq!(record.0, second);
    assert_ne!(record.0, first);
    assert_eq!(record.1.as_str(), "222222");
    assert!(store.remove(&address).is_ok());
    assert!(store.remove(&address).is_err());
}

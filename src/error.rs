use crate::email::EmailError;
use crate::password::PasswordError;
use crate::stores::{TwoFACodeStoreError, UserStoreError};
use crate::token::{GenerateTokenError, TokenError};
use crate::two_fa::{LoginAttemptIdError, TwoFACodeError};
use vstd::prelude::*;

verus! {

/// The typed rejections of the authentication flows.
#[derive(Debug, Clone, Copy, PartialEq, Eq)]
pub enum AuthApiError {
    UserAlreadyExists,
    InvalidCredentials,
    IncorrectCredentials,
    UserNotFound,
    UnexpectedError,
    MissingToken,
    InvalidToken,
    InvalidTwoFaCode,
}

/// The body of an error reply.
#[derive(Debug, Clone)]
pub struct ErrorResponse {
    pub error: String,
}

/// The HTTP status that a rejection is reported with. An unknown address is
/// reported as an incorrect password is, so that replies do not reveal which
/// addresses are registered.
pub open spec fn spec_status_code(e: AuthApiError) -> u16 {
    match e {
        AuthApiError::UserAlreadyExists => 409,
        AuthApiError::InvalidCredentials => 400,
        AuthApiError::IncorrectCredentials => 401,
        AuthApiError::UserNotFound => 401,
        AuthApiError::UnexpectedError => 500,
        AuthApiError::MissingToken => 400,
        AuthApiError::InvalidToken => 401,
        AuthApiError::InvalidTwoFaCode => 400,
    }
}

pub open spec fn spec_error_message(e: AuthApiError) -> Seq<char> {
    match e {
        AuthApiError::UserAlreadyExists => "User already exists"@,
        AuthApiError::InvalidCredentials => "Invalid credentials"@,
        AuthApiError::IncorrectCredentials => "Unauthorized"@,
        AuthApiError::UserNotFound => "Unauthorized"@,
        AuthApiError::UnexpectedError => "Unexpected error"@,
        AuthApiError::MissingToken => "Missing token"@,
        AuthApiError::InvalidToken => "Invalid token"@,
        AuthApiError::InvalidTwoFaCode => "Invalid 2FA code"@,
    }
}

impl AuthApiError {
    pub fn status_code(&self) -> (r: u16)
        ensures
            r == spec_status_code(*self),
    {
        match self {
            AuthApiError::UserAlreadyExists => 409,
            AuthApiError::InvalidCredentials => 400,
            AuthApiError::IncorrectCredentials => 401,
            AuthApiError::UserNotFound => 401,
            AuthApiError::UnexpectedError => 500,
            AuthApiError::MissingToken => 400,
            AuthApiError::InvalidToken => 401,
            AuthApiError::InvalidTwoFaCode => 400,
        }
    }

    pub fn message(&self) -> (r: &'static str)
        ensures
            r@ == spec_error_message(*self),
    {
        match self {
            AuthApiError::UserAlreadyExists => "User already exists",
            AuthApiError::InvalidCredentials => "Invalid credentials",
            AuthApiError::IncorrectCredentials => "Unauthorized",
            AuthApiError::UserNotFound => "Unauthorized",
            AuthApiError::UnexpectedError => "Unexpected error",
            AuthApiError::MissingToken => "Missing token",
            AuthApiError::InvalidToken => "Invalid token",
            AuthApiError::InvalidTwoFaCode => "Invalid 2FA code",
        }
    }

    pub fn error_response(&self) -> (r: ErrorResponse)
        ensures
            r.error@ == spec_error_message(*self),
    {
        ErrorResponse { error: String::from_str(self.message()) }
    }
}

impl Default for AuthApiError {
    fn default() -> (r: AuthApiError)
        ensures
            r == AuthApiError::UnexpectedError,
    {
        AuthApiError::UnexpectedError
    }
}

pub open spec fn from_user_store_error(e: UserStoreError) -> AuthApiError {
    match e {
        UserStoreError::UserAlreadyExists => AuthApiError::UserAlreadyExists,
        UserStoreError::InvalidCredentials => AuthApiError::InvalidCredentials,
        UserStoreError::IncorrectCredentials => AuthApiError::IncorrectCredentials,
        UserStoreError::UserNotFound => AuthApiError::UserNotFound,
        UserStoreError::UnexpectedError => AuthApiError::UnexpectedError,
    }
}

impl From<UserStoreError> for AuthApiError {
    fn from(e: UserStoreError) -> (r: AuthApiError) {
        match e {
            UserStoreError::UserAlreadyExists => AuthApiError::UserAlreadyExists,
            UserStoreError::InvalidCredentials => AuthApiError::InvalidCredentials,
            UserStoreError::IncorrectCredentials => AuthApiError::IncorrectCredentials,
            UserStoreError::UserNotFound => AuthApiError::UserNotFound,
            UserStoreError::UnexpectedError => AuthApiError::UnexpectedError,
        }
    }
}

impl vstd::std_specs::convert::FromSpecImpl<UserStoreError> for AuthApiError {
    open spec fn obeys_from_spec() -> bool {
        true
    }

    open spec fn from_spec(e: UserStoreError) -> AuthApiError {
        from_user_store_error(e)
    }
}

impl From<GenerateTokenError> for AuthApiError {
    fn from(e: GenerateTokenError) -> (r: AuthApiError) {
        match e {
            GenerateTokenError::TokenError(_) => AuthApiError::InvalidToken,
            GenerateTokenError::UnexpectedError => AuthApiError::UnexpectedError,
        }
    }
}

impl vstd::std_specs::convert::FromSpecImpl<GenerateTokenError> for AuthApiError {
    open spec fn obeys_from_spec() -> bool {
        true
    }

    open spec fn from_spec(e: GenerateTokenError) -> AuthApiError {
        match e {
            GenerateTokenError::TokenError(_) => AuthApiError::InvalidToken,
            GenerateTokenError::UnexpectedError => AuthApiError::UnexpectedError,
        }
    }
}

impl From<TokenError> for AuthApiError {
    fn from(_e: TokenError) -> (r: AuthApiError) {
        AuthApiError::InvalidToken
    }
}

impl vstd::std_specs::convert::FromSpecImpl<TokenError> for AuthApiError {
    open spec fn obeys_from_spec() -> bool {
        true
    }

    open spec fn from_spec(_e: TokenError) -> AuthApiError {
        AuthApiError::InvalidToken
    }
}

impl From<jsonwebtoken::errors::Error> for AuthApiError {
    fn from(_e: jsonwebtoken::errors::Error) -> (r: AuthApiError) {
        AuthApiError::InvalidToken
    }
}

impl vstd::std_specs::convert::FromSpecImpl<jsonwebtoken::errors::Error> for AuthApiError {
    open spec fn obeys_from_spec() -> bool {
        true
    }

    open spec fn from_spec(_e: jsonwebtoken::errors::Error) -> AuthApiError {
        AuthApiError::InvalidToken
    }
}

impl From<LoginAttemptIdError> for AuthApiError {
    fn from(_e: LoginAttemptIdError) -> (r: AuthApiError) {
        AuthApiError::InvalidTwoFaCode
    }
}

impl vstd::std_specs::convert::FromSpecImpl<LoginAttemptIdError> for AuthApiError {
    open spec fn obeys_from_spec() -> bool {
        true
    }

    open spec fn from_spec(_e: LoginAttemptIdError) -> AuthApiError {
        AuthApiError::InvalidTwoFaCode
    }
}

impl From<TwoFACodeError> for AuthApiError {
    fn from(_e: TwoFACodeError) -> (r: AuthApiError) {
        AuthApiError::InvalidTwoFaCode
    }
}

impl vstd::std_specs::convert::FromSpecImpl<TwoFACodeError> for AuthApiError {
    open spec fn obeys_from_spec() -> bool {
        true
    }

    open spec fn from_spec(_e: TwoFACodeError) -> AuthApiError {
        AuthApiError::InvalidTwoFaCode
    }
}

impl From<TwoFACodeStoreError> for AuthApiError {
    fn from(_e: TwoFACodeStoreError) -> (r: AuthApiError) {
        AuthApiError::UnexpectedError
    }
}

impl vstd::std_specs::convert::FromSpecImpl<TwoFACodeStoreError> for AuthApiError {
    open spec fn obeys_from_spec() -> bool {
        true
    }

    open spec fn from_spec(_e: TwoFACodeStoreError) -> AuthApiError {
        AuthApiError::UnexpectedError
    }
}

impl From<EmailError> for AuthApiError {
    fn from(_e: EmailError) -> (r: AuthApiError) {
        AuthApiError::InvalidCredentials
    }
}

impl vstd::std_specs::convert::FromSpecImpl<EmailError> for AuthApiError {
    open spec fn obeys_from_spec() -> bool {
        true
    }

    open spec fn from_spec(_e: EmailError) -> AuthApiError {
        AuthApiError::InvalidCredentials
    }
}

impl From<PasswordError> for AuthApiError {
    fn from(e: PasswordError) -> (r: AuthApiError) {
        match e {
            PasswordError::HashingFailed => AuthApiError::UnexpectedError,
            _ => AuthApiError::InvalidCredentials,
        }
    }
}

impl vstd::std_specs::convert::FromSpecImpl<PasswordError> for AuthApiError {
    open spec fn obeys_from_spec() -> bool {
        true
    }

    open spec fn from_spec(e: PasswordError) -> AuthApiError {
        match e {
            PasswordError::HashingFailed => AuthApiError::UnexpectedError,
            _ => AuthApiError::InvalidCredentials,
        }
    }
}

} // verus!

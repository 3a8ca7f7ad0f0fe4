//! An authentication engine: validated credentials, a user directory, signed
//! session tokens, token revocation, second-factor challenges and the login,
//! logout and token-check flows that compose them.

pub mod email;
pub mod keyed;
pub mod password;
pub mod token;
pub mod two_fa;
pub mod user;
pub mod stores;
pub mod user_store;
pub mod banned_token_store;
pub mod two_fa_code_store;
pub mod error;
pub mod flows;

use crate::email::Email;
use jsonwebtoken::errors::ErrorKind;
use jsonwebtoken::{Algorithm, DecodingKey, EncodingKey, Header, Validation};
use serde_json::Value;
use vstd::prelude::*;

verus! {

/// How long an issued token stays valid, in seconds.
pub const TOKEN_TTL_SECONDS: i64 = 600;

/// The compact HS256 token that `jsonwebtoken::encode` makes of the claims
/// `{"exp": exp, "sub": sub}` under `key`.
pub uninterp spec fn jwt_encoded(sub: Seq<char>, exp: usize, key: Seq<u8>) -> Seq<char>;

/// The `sub` and `exp` claims of `token`, where `jsonwebtoken::decode` accepts
/// its form and HS256 signature under `key` (expiry aside).
pub uninterp spec fn jwt_decoded(token: Seq<char>, key: Seq<u8>) -> Option<(Seq<char>, usize)>;

#[verifier::external_type_specification]
#[verifier::external_body]
pub struct ExJwtError(jsonwebtoken::errors::Error);

/// Why a token is not trusted by `validate_token`.
#[derive(Debug, Clone, Copy, PartialEq, Eq)]
pub enum TokenError {
    Malformed,
    SignatureInvalid,
    Expired,
}

#[derive(Debug)]
pub enum GenerateTokenError {
    TokenError(jsonwebtoken::errors::Error),
    UnexpectedError,
}

/// Relies on `jsonwebtoken::encode` with the default header (HS256): HMAC
/// signing of a serialised map is deterministic, and cannot fail, since the
/// key from `EncodingKey::from_secret` is of the header's HMAC family and a
/// map of JSON values always serialises.
#[verifier::external_body]
fn jwt_encode(sub: &str, exp: usize, key: &[u8]) -> (r: Result<String, jsonwebtoken::errors::Error>)
    ensures
        r is Ok && r->Ok_0@ == jwt_encoded(sub@, exp, key@),
{
    let claims = std::collections::BTreeMap::from([("sub", Value::from(sub)), ("exp", Value::from(exp))]);
    jsonwebtoken::encode(&Header::default(), &claims, &EncodingKey::from_secret(key))
}

/// Relies on `jsonwebtoken::decode` (HS256 only, the expiry left to the caller):
/// it accepts what `encode` made under the same key and gives back its claims.
#[verifier::external_body]
fn jwt_decode(token: &str, key: &[u8]) -> (r: Result<(String, usize), TokenError>)
    ensures
        match r {
            Ok((sub, exp)) => jwt_decoded(token@, key@) == Some((sub@, exp)),
            Err(e) => jwt_decoded(token@, key@) is None && e != TokenError::Expired,
        },
        forall|sub: Seq<char>, exp: usize|
            #[trigger] jwt_encoded(sub, exp, key@) == token@ ==> r is Ok && r->Ok_0.0@ == sub && r->Ok_0.1 == exp,
{
    let mut validation = Validation::new(Algorithm::HS256);
    validation.validate_exp = false;
    match jsonwebtoken::decode::<Value>(token, &DecodingKey::from_secret(key), &validation) {
        Ok(d) => match (d.claims["sub"].as_str(), d.claims["exp"].as_u64().and_then(|e| usize::try_from(e).ok())) {
            (Some(sub), Some(exp)) => Ok((sub.to_string(), exp)),
            _ => Err(TokenError::Malformed),
        },
        Err(e) if matches!(e.kind(), ErrorKind::InvalidSignature) => Err(TokenError::SignatureInvalid),
        Err(_) => Err(TokenError::Malformed),
    }
}

/// Relies on `chrono::Utc::now`: the current Unix time in seconds.
#[verifier::external_body]
pub(crate) fn now_timestamp() -> i64 {
    chrono::Utc::now().timestamp()
}

/// A bearer token; the type makes no claim that it is valid.
#[derive(Debug, Clone, Eq, Hash)]
pub struct Token {
    value: String,
}

impl View for Token {
    type V = Seq<char>;

    closed spec fn view(&self) -> Seq<char> {
        self.value@
    }
}

impl Token {
    pub fn new(value: String) -> (r: Token)
        ensures
            r@ == value@,
    {
        Token { value }
    }

    pub fn as_str(&self) -> (r: &str)
        ensures
            r@ == self@,
    {
        self.value.as_str()
    }

    pub fn copied(&self) -> (r: Token)
        ensures
            r == *self,
    {
        Token { value: self.value.clone() }
    }
}

impl From<String> for Token {
    fn from(value: String) -> (r: Token) {
        Token { value }
    }
}

impl vstd::std_specs::convert::FromSpecImpl<String> for Token {
    open spec fn obeys_from_spec() -> bool {
        true
    }

    closed spec fn from_spec(v: String) -> Token {
        Token { value: v }
    }
}

impl PartialEq for Token {
    fn eq(&self, other: &Token) -> (r: bool) {
        self.value == other.value
    }
}

impl vstd::std_specs::cmp::PartialEqSpecImpl for Token {
    open spec fn obeys_eq_spec() -> bool {
        true
    }

    open spec fn eq_spec(&self, other: &Token) -> bool {
        self@ == other@
    }
}

/// The decoded claims of a trusted token.
#[derive(Debug, Clone)]
pub struct Claims {
    pub sub: String,
    pub exp: usize,
}

/// The process-wide signing secret; never empty.
#[derive(Debug, Clone)]
pub struct JwtSecret {
    key: Vec<u8>,
}

impl View for JwtSecret {
    type V = Seq<u8>;

    closed spec fn view(&self) -> Seq<u8> {
        self.key@
    }
}

impl JwtSecret {
    /// The bytes of `s`, or `None` where `s` is empty.
    pub fn new(s: &str) -> (r: Option<JwtSecret>)
        ensures
            r is Some <==> s@.len() > 0,
            r is Some ==> r->Some_0@ == vstd::utf8::encode_utf8(s@) && r->Some_0@.len() > 0,
    {
        if s.is_empty() {
            None
        } else {
            let key = s.as_bytes_vec();
            proof {
                vstd::utf8::encode_utf8_first_scalar(s@);
            }
            Some(JwtSecret { key })
        }
    }
}

/// Whether an expiry `TOKEN_TTL_SECONDS` after `now` is a valid `i64` and
/// `usize` time.
pub open spec fn expiry_fits(now: int) -> bool {
    0 <= now + TOKEN_TTL_SECONDS <= i64::MAX && now + TOKEN_TTL_SECONDS <= usize::MAX
}

/// Where `token` is what `jwt_encode` made of some claims under `key`,
/// decoding it gives back those claims.
pub open spec fn decodes_as_issued(token: Seq<char>, key: Seq<u8>) -> bool {
    forall|sub: Seq<char>, exp: usize|
        #[trigger] jwt_encoded(sub, exp, key) == token ==> jwt_decoded(token, key) == Some((sub, exp))
}

/// What `validate_token_at` returns for `token` at time `now`.
pub open spec fn validation_matches(token: Seq<char>, now: int, key: Seq<u8>, r: Result<Claims, TokenError>) -> bool {
    &&& match jwt_decoded(token, key) {
        None => r is Err && r->Err_0 != TokenError::Expired,
        Some((sub, exp)) => if now < exp {
            r is Ok && r->Ok_0.sub@ == sub && r->Ok_0.exp == exp
        } else {
            r == Err::<Claims, TokenError>(TokenError::Expired)
        },
    }
    &&& decodes_as_issued(token, key)
}

/// What `issue_auth_token` returns for `email` at time `now`.
pub open spec fn issue_outcome(email: Seq<char>, now: int, key: Seq<u8>, r: Result<Token, GenerateTokenError>) -> bool {
    if expiry_fits(now) {
        r is Ok && r->Ok_0@ == jwt_encoded(email, (now + TOKEN_TTL_SECONDS) as usize, key)
    } else {
        r matches Err(GenerateTokenError::UnexpectedError)
    }
}

/// Signs a token for `email` that expires `TOKEN_TTL_SECONDS` after `now`.
pub fn issue_auth_token(email: &Email, now: i64, secret: &JwtSecret) -> (r: Result<Token, GenerateTokenError>)
    ensures
        issue_outcome(email@, now as int, secret@, r),
{
    let exp = match now.checked_add(TOKEN_TTL_SECONDS) {
        Some(t) if t >= 0 && t as u64 <= usize::MAX as u64 => t as usize,
        _ => return Err(GenerateTokenError::UnexpectedError),
    };
    match jwt_encode(email.as_str(), exp, secret.key.as_slice()) {
        Ok(s) => Ok(Token { value: s }),
        Err(e) => Err(GenerateTokenError::TokenError(e)),
    }
}

/// Signs a token for `email` that expires `TOKEN_TTL_SECONDS` from now.
pub fn generate_auth_token(email: &Email, secret: &JwtSecret) -> (r: Result<Token, GenerateTokenError>)
    ensures
        exists|now: i64| #[trigger] issue_outcome(email@, now as int, secret@, r),
{
    issue_auth_token(email, now_timestamp(), secret)
}

/// Checks the form, signature and expiry of `token` at time `now`; does not
/// consult any revocation list.
pub fn validate_token_at(token: &Token, now: i64, secret: &JwtSecret) -> (r: Result<Claims, TokenError>)
    ensures
        validation_matches(token@, now as int, secret@, r),
{
    match jwt_decode(token.value.as_str(), secret.key.as_slice()) {
        Ok((sub, exp)) => {
            if (now as i128) < (exp as i128) {
                Ok(Claims { sub, exp })
            } else {
                Err(TokenError::Expired)
            }
        },
        Err(e) => Err(e),
    }
}

/// Checks the form, signature and expiry of `token` now.
pub fn validate_token(token: &Token, secret: &JwtSecret) -> (r: Result<Claims, TokenError>)
    ensures
        exists|now: i64| validation_matches(token@, now as int, secret@, r),
{
    let now = now_timestamp();
    validate_token_at(token, now, secret)
}

/// A token issued at `now` and checked at `now` is trusted, names the subject
/// it was issued for, and expires after `now`.
pub proof fn lemma_issued_token_validates(
    email: Seq<char>,
    now: i64,
    key: Seq<u8>,
    token: Seq<char>,
    r: Result<Claims, TokenError>,
)
    requires
        expiry_fits(now as int),
        token == jwt_encoded(email, (now + TOKEN_TTL_SECONDS) as usize, key),
        validation_matches(token, now as int, key, r),
    ensures
        r is Ok,
        r->Ok_0.sub@ == email,
        r->Ok_0.exp > now,
{
    let exp = (now + TOKEN_TTL_SECONDS) as usize;
    assert(jwt_encoded(email, exp, key) == token);
}

} // verus!

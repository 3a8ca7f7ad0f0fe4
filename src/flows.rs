//! The signup, login, second-factor, logout and token-check flows, composed
//! from the stores and the token issuer. Each flow that needs the time or
//! fresh random values has an `_at` form that takes them as arguments.

use crate::email::{is_valid_email, Email};
use crate::error::AuthApiError;
use crate::password::{byte_len, HashedPassword, Password, MAX_PASSWORD_BYTES, MIN_PASSWORD_BYTES};
use crate::stores::{ban_outcome, BannedTokenResult, BannedTokenStore, TwoFACodeStore, UserStore};
use crate::token::{
    decodes_as_issued, expiry_fits, issue_auth_token, jwt_decoded, jwt_encoded, now_timestamp, validate_token_at,
    JwtSecret, Token, TOKEN_TTL_SECONDS,
};
use crate::two_fa::{is_six_digits, uuid_canonical, LoginAttemptId, TwoFACode};
use crate::user::User;
use vstd::prelude::*;

verus! {

#[derive(Debug, Clone)]
pub struct SignupRequest {
    pub email: String,
    pub password: String,
    pub requires_2fa: bool,
}

#[derive(Debug, Clone)]
pub struct SignupResponse {
    pub message: String,
}

#[derive(Debug, Clone)]
pub struct LoginRequest {
    pub email: String,
    pub password: String,
}

#[derive(Debug, Clone)]
pub struct TwoFactorAuthResponse {
    pub message: String,
    pub login_attempt_id: String,
}

/// A login either ends with a token, or waits for its second factor.
#[derive(Debug, Clone)]
pub enum LoginResponse {
    RegularAuth(Token),
    TwoFactorAuth(TwoFactorAuthResponse),
}

#[derive(Debug, Clone)]
pub struct Verify2FARequest {
    pub email: String,
    pub login_attempt_id: String,
    pub two_fa_code: String,
}

#[derive(Debug, Clone)]
pub struct VerifyTokenRequest {
    pub token: Token,
}

pub open spec fn credentials_well_formed(email: Seq<char>, password: Seq<char>) -> bool {
    is_valid_email(email) && byte_len(password) >= MIN_PASSWORD_BYTES
}

/// What `signup` does to the directory and returns. A password longer than
/// Argon2 hashes ends in `UnexpectedError`.
pub open spec fn signup_outcome(
    before: Map<Seq<char>, User>,
    req: SignupRequest,
    r: Result<SignupResponse, AuthApiError>,
    after: Map<Seq<char>, User>,
) -> bool {
    let e = req.email@;
    if !credentials_well_formed(e, req.password@) {
        r == Err::<SignupResponse, AuthApiError>(AuthApiError::InvalidCredentials) && after == before
    } else if before.contains_key(e) {
        r == Err::<SignupResponse, AuthApiError>(AuthApiError::UserAlreadyExists) && after == before
    } else if byte_len(req.password@) <= MAX_PASSWORD_BYTES {
        &&& r is Ok
        &&& r->Ok_0.message@ == "User created successfully!"@
        &&& after.contains_key(e)
        &&& after == before.insert(e, after[e])
        &&& after[e].email@ == e
        &&& after[e].requires_2fa == req.requires_2fa
        &&& after[e].password.accepts(req.password@)
    } else {
        r == Err::<SignupResponse, AuthApiError>(AuthApiError::UnexpectedError) && after == before
    }
}

/// Registers a user: checks the address and the password, refuses a taken
/// address, then hashes the password and adds the user.
pub fn signup<U: UserStore>(store: &mut U, request: SignupRequest) -> (r: Result<SignupResponse, AuthApiError>)
    requires
        old(store).wf(),
    ensures
        final(store).wf(),
        signup_outcome(old(store).users(), request, r, final(store).users()),
{
    let email = match Email::parse(request.email) {
        Ok(e) => e,
        Err(_) => return Err(AuthApiError::InvalidCredentials),
    };
    let raw = match Password::parse(request.password) {
        Ok(p) => p,
        Err(_) => return Err(AuthApiError::InvalidCredentials),
    };
    if store.get_user(&email).is_ok() {
        return Err(AuthApiError::UserAlreadyExists);
    }
    let hashed = match HashedPassword::from_raw(&raw) {
        Ok(h) => h,
        Err(_) => return Err(AuthApiError::UnexpectedError),
    };
    let user = User::new(email, hashed, request.requires_2fa);
    match store.add_user(user) {
        Ok(()) => Ok(SignupResponse { message: String::from_str("User created successfully!") }),
        Err(_) => Err(AuthApiError::UserAlreadyExists),
    }
}

/// What `login_at` does to the challenge store and returns.
pub open spec fn login_outcome(
    users: Map<Seq<char>, User>,
    req: LoginRequest,
    now: int,
    key: Seq<u8>,
    attempt: LoginAttemptId,
    code: TwoFACode,
    r: Result<LoginResponse, AuthApiError>,
    before: Map<Seq<char>, (LoginAttemptId, TwoFACode)>,
    after: Map<Seq<char>, (LoginAttemptId, TwoFACode)>,
) -> bool {
    let e = req.email@;
    if !credentials_well_formed(e, req.password@) {
        r == Err::<LoginResponse, AuthApiError>(AuthApiError::InvalidCredentials) && after == before
    } else if !users.contains_key(e) {
        r == Err::<LoginResponse, AuthApiError>(AuthApiError::UserNotFound) && after == before
    } else if !users[e].password.accepts(req.password@) {
        r == Err::<LoginResponse, AuthApiError>(AuthApiError::IncorrectCredentials) && after == before
    } else if users[e].requires_2fa {
        &&& after == before.insert(e, (attempt, code))
        &&& r matches Ok(LoginResponse::TwoFactorAuth(resp))
        &&& r->Ok_0->TwoFactorAuth_0.login_attempt_id@ == attempt@
        &&& r->Ok_0->TwoFactorAuth_0.message@ == "2FA required"@
    } else if !expiry_fits(now) {
        r == Err::<LoginResponse, AuthApiError>(AuthApiError::UnexpectedError) && after == before
    } else {
        &&& after == before
        &&& r matches Ok(LoginResponse::RegularAuth(t))
        &&& r->Ok_0->RegularAuth_0@ == jwt_encoded(e, (now + TOKEN_TTL_SECONDS) as usize, key)
    }
}

/// Checks the credentials; then either issues a token at time `now`, or, for a
/// user with a second factor, stores the challenge `(attempt, code)` for the
/// address, replacing any earlier one, and returns the attempt id.
pub fn login_at<U: UserStore, C: TwoFACodeStore>(
    users: &U,
    codes: &mut C,
    request: &LoginRequest,
    now: i64,
    secret: &JwtSecret,
    attempt: LoginAttemptId,
    code: TwoFACode,
) -> (r: Result<LoginResponse, AuthApiError>)
    requires
        users.wf(),
        old(codes).wf(),
    ensures
        final(codes).wf(),
        login_outcome(users.users(), *request, now as int, secret@, attempt, code, r, old(codes).codes(), final(codes).codes()),
{
    let email = match Email::parse(request.email.clone()) {
        Ok(e) => e,
        Err(_) => return Err(AuthApiError::InvalidCredentials),
    };
    let raw = match Password::parse(request.password.clone()) {
        Ok(p) => p,
        Err(_) => return Err(AuthApiError::InvalidCredentials),
    };
    let user = match users.validate_user(&email, &raw) {
        Ok(u) => u,
        Err(e) => return Err(AuthApiError::from(e)),
    };
    proof {
        users.lemma_users();
    }
    if user.requires_2fa {
        let login_attempt_id = attempt.as_str().to_string();
        let _ = codes.add(user.email, attempt, code);
        Ok(
            LoginResponse::TwoFactorAuth(
                TwoFactorAuthResponse { message: String::from_str("2FA required"), login_attempt_id },
            ),
        )
    } else {
        match issue_auth_token(&user.email, now, secret) {
            Ok(t) => Ok(LoginResponse::RegularAuth(t)),
            Err(e) => Err(AuthApiError::from(e)),
        }
    }
}

/// `login_at` with the current time and a fresh attempt id and code.
pub fn login<U: UserStore, C: TwoFACodeStore>(
    users: &U,
    codes: &mut C,
    request: &LoginRequest,
    secret: &JwtSecret,
) -> (r: Result<LoginResponse, AuthApiError>)
    requires
        users.wf(),
        old(codes).wf(),
    ensures
        final(codes).wf(),
        exists|now: i64, attempt: LoginAttemptId, code: TwoFACode|
            attempt.wf() && code.wf() && #[trigger] login_outcome(
                users.users(),
                *request,
                now as int,
                secret@,
                attempt,
                code,
                r,
                old(codes).codes(),
                final(codes).codes(),
            ),
{
    let attempt = LoginAttemptId::fresh();
    let code = TwoFACode::fresh();
    let now = now_timestamp();
    let ghost (a, c) = (attempt, code);
    let r = login_at(users, codes, request, now, secret, attempt, code);
    assert(a.wf() && c.wf() && login_outcome(users.users(), *request, now as int, secret@, a, c, r, old(codes).codes(), codes.codes()));
    r
}

/// For a user with a second factor, a second login before confirmation
/// replaces the pending challenge: the store then holds the second attempt id
/// and code for the address, and a confirmation that presents the first
/// attempt id is refused and changes nothing.
pub proof fn lemma_second_login_supersedes(
    users: Map<Seq<char>, User>,
    req: LoginRequest,
    key: Seq<u8>,
    now1: int,
    a1: LoginAttemptId,
    c1: TwoFACode,
    r1: Result<LoginResponse, AuthApiError>,
    now2: int,
    a2: LoginAttemptId,
    c2: TwoFACode,
    r2: Result<LoginResponse, AuthApiError>,
    s0: Map<Seq<char>, (LoginAttemptId, TwoFACode)>,
    s1: Map<Seq<char>, (LoginAttemptId, TwoFACode)>,
    s2: Map<Seq<char>, (LoginAttemptId, TwoFACode)>,
    confirm: Verify2FARequest,
    now3: int,
    r3: Result<Token, AuthApiError>,
    s3: Map<Seq<char>, (LoginAttemptId, TwoFACode)>,
)
    requires
        login_outcome(users, req, now1, key, a1, c1, r1, s0, s1),
        login_outcome(users, req, now2, key, a2, c2, r2, s1, s2),
        r1 matches Ok(LoginResponse::TwoFactorAuth(_)),
        a1.wf(),
        c1.wf(),
        a2@ != a1@,
        confirm.email@ == req.email@,
        confirm.login_attempt_id@ == a1@,
        confirm.two_fa_code@ == c1@,
        verify_2fa_outcome(confirm, now3, key, r3, s2, s3),
    ensures
        r2 matches Ok(LoginResponse::TwoFactorAuth(_)),
        s2.contains_key(req.email@),
        s2[req.email@] == (a2, c2),
        r3 == Err::<Token, AuthApiError>(AuthApiError::InvalidTwoFaCode),
        s3 == s2,
{
}

/// Logging in with the right password of a user without a second factor
/// gives a token that the token check trusts at the same time, unless it was
/// banned; the wrong password is refused as incorrect, not as unknown.
pub proof fn lemma_login_then_verify(
    users: Map<Seq<char>, User>,
    req: LoginRequest,
    now: i64,
    key: Seq<u8>,
    attempt: LoginAttemptId,
    code: TwoFACode,
    r: Result<LoginResponse, AuthApiError>,
    before: Map<Seq<char>, (LoginAttemptId, TwoFACode)>,
    after: Map<Seq<char>, (LoginAttemptId, TwoFACode)>,
    banned: Set<Seq<char>>,
    checked: Result<(), AuthApiError>,
)
    requires
        credentials_well_formed(req.email@, req.password@),
        users.contains_key(req.email@),
        !users[req.email@].requires_2fa,
        expiry_fits(now as int),
        login_outcome(users, req, now as int, key, attempt, code, r, before, after),
        r is Ok ==> !banned.contains(r->Ok_0->RegularAuth_0@)
            && verify_token_outcome(banned, r->Ok_0->RegularAuth_0@, now as int, key, checked),
    ensures
        users[req.email@].password.accepts(req.password@) ==> (r matches Ok(LoginResponse::RegularAuth(_)))
            && checked is Ok,
        !users[req.email@].password.accepts(req.password@) ==> r == Err::<LoginResponse, AuthApiError>(
            AuthApiError::IncorrectCredentials,
        ),
{
    if users[req.email@].password.accepts(req.password@) {
        let exp = (now + TOKEN_TTL_SECONDS) as usize;
        assert(jwt_encoded(req.email@, exp, key) == r->Ok_0->RegularAuth_0@);
    }
}

/// What `verify_2fa_at` does to the challenge store and returns.
pub open spec fn verify_2fa_outcome(
    req: Verify2FARequest,
    now: int,
    key: Seq<u8>,
    r: Result<Token, AuthApiError>,
    before: Map<Seq<char>, (LoginAttemptId, TwoFACode)>,
    after: Map<Seq<char>, (LoginAttemptId, TwoFACode)>,
) -> bool {
    let e = req.email@;
    if !is_valid_email(e) {
        r == Err::<Token, AuthApiError>(AuthApiError::InvalidCredentials) && after == before
    } else if uuid_canonical(req.login_attempt_id@) is None || !is_six_digits(req.two_fa_code@) {
        r == Err::<Token, AuthApiError>(AuthApiError::InvalidTwoFaCode) && after == before
    } else if !before.contains_key(e) {
        r == Err::<Token, AuthApiError>(AuthApiError::InvalidTwoFaCode) && after == before
    } else if before[e].0@ != uuid_canonical(req.login_attempt_id@)->Some_0 || before[e].1@ != req.two_fa_code@ {
        r == Err::<Token, AuthApiError>(AuthApiError::InvalidTwoFaCode) && after == before
    } else if !expiry_fits(now) {
        r == Err::<Token, AuthApiError>(AuthApiError::UnexpectedError) && after == before
    } else {
        r is Ok && r->Ok_0@ == jwt_encoded(e, (now + TOKEN_TTL_SECONDS) as usize, key) && after == before.remove(e)
    }
}

/// Completes a login that waits for its second factor: the attempt id and
/// code must match the pending challenge for the address exactly; the
/// challenge is then consumed and a token issued at time `now`.
pub fn verify_2fa_at<C: TwoFACodeStore>(
    codes: &mut C,
    request: &Verify2FARequest,
    now: i64,
    secret: &JwtSecret,
) -> (r: Result<Token, AuthApiError>)
    requires
        old(codes).wf(),
    ensures
        final(codes).wf(),
        verify_2fa_outcome(*request, now as int, secret@, r, old(codes).codes(), final(codes).codes()),
{
    let email = match Email::parse(request.email.clone()) {
        Ok(e) => e,
        Err(_) => return Err(AuthApiError::InvalidCredentials),
    };
    let attempt = match LoginAttemptId::parse(request.login_attempt_id.as_str()) {
        Ok(a) => a,
        Err(e) => return Err(AuthApiError::from(e)),
    };
    let code = match TwoFACode::parse(request.two_fa_code.as_str()) {
        Ok(c) => c,
        Err(e) => return Err(AuthApiError::from(e)),
    };
    let (stored_attempt, stored_code) = match codes.get(&email) {
        Ok(pair) => pair,
        Err(_) => return Err(AuthApiError::InvalidTwoFaCode),
    };
    if !(stored_attempt == attempt) || !(stored_code == code) {
        return Err(AuthApiError::InvalidTwoFaCode);
    }
    match issue_auth_token(&email, now, secret) {
        Ok(t) => {
            let _ = codes.remove(&email);
            Ok(t)
        },
        Err(e) => Err(AuthApiError::from(e)),
    }
}

/// `verify_2fa_at` with the current time.
pub fn verify_2fa<C: TwoFACodeStore>(codes: &mut C, request: &Verify2FARequest, secret: &JwtSecret) -> (r: Result<Token, AuthApiError>)
    requires
        old(codes).wf(),
    ensures
        final(codes).wf(),
        exists|now: i64| #[trigger] verify_2fa_outcome(*request, now as int, secret@, r, old(codes).codes(), final(codes).codes()),
{
    verify_2fa_at(codes, request, now_timestamp(), secret)
}

/// Whether `token` is trusted at time `now`: well formed, signed with the
/// key, not expired, and not banned.
pub open spec fn token_trusted(banned: Set<Seq<char>>, token: Seq<char>, now: int, key: Seq<u8>) -> bool {
    &&& !banned.contains(token)
    &&& jwt_decoded(token, key) is Some
    &&& now < jwt_decoded(token, key)->Some_0.1
}

/// A banned token is not trusted, however valid its signature and expiry.
pub proof fn lemma_banned_token_not_trusted(
    before: Set<Seq<char>>,
    token: Seq<char>,
    r: BannedTokenResult,
    after: Set<Seq<char>>,
    now: int,
    key: Seq<u8>,
)
    requires
        ban_outcome(before, token, r, after),
    ensures
        !token_trusted(after, token, now, key),
{
}

/// What `verify_token_at` returns: success exactly for a trusted token.
pub open spec fn verify_token_outcome(
    banned: Set<Seq<char>>,
    token: Seq<char>,
    now: int,
    key: Seq<u8>,
    r: Result<(), AuthApiError>,
) -> bool {
    &&& r is Ok <==> token_trusted(banned, token, now, key)
    &&& r is Err ==> r->Err_0 == AuthApiError::InvalidToken
    &&& decodes_as_issued(token, key)
}

/// Checks that a presented token is trusted at time `now`.
pub fn verify_token_at<B: BannedTokenStore>(
    banned: &B,
    request: &VerifyTokenRequest,
    now: i64,
    secret: &JwtSecret,
) -> (r: Result<(), AuthApiError>)
    requires
        banned.wf(),
    ensures
        verify_token_outcome(banned.banned(), request.token@, now as int, secret@, r),
{
    match validate_token_at(&request.token, now, secret) {
        Ok(_) => {
            if banned.is_banned(&request.token) {
                Err(AuthApiError::InvalidToken)
            } else {
                Ok(())
            }
        },
        Err(_) => Err(AuthApiError::InvalidToken),
    }
}

/// `verify_token_at` with the current time.
pub fn verify_token<B: BannedTokenStore>(banned: &B, request: &VerifyTokenRequest, secret: &JwtSecret) -> (r: Result<(), AuthApiError>)
    requires
        banned.wf(),
    ensures
        exists|now: i64| #[trigger] verify_token_outcome(banned.banned(), request.token@, now as int, secret@, r),
{
    verify_token_at(banned, request, now_timestamp(), secret)
}

pub open spec fn presented(token: Option<Token>) -> Option<Seq<char>> {
    match token {
        Some(t) => Some(t@),
        None => None,
    }
}

/// What `logout_at` does to the revocation list and returns.
pub open spec fn logout_outcome(
    token: Option<Seq<char>>,
    now: int,
    key: Seq<u8>,
    r: Result<(), AuthApiError>,
    before: Set<Seq<char>>,
    after: Set<Seq<char>>,
) -> bool {
    match token {
        None => r == Err::<(), AuthApiError>(AuthApiError::MissingToken) && after == before,
        Some(t) => decodes_as_issued(t, key) && if token_trusted(before, t, now, key) {
            r is Ok && after == before.insert(t)
        } else {
            r == Err::<(), AuthApiError>(AuthApiError::InvalidToken) && after == before
        },
    }
}

/// A logout that succeeded bans its token, so presenting the same token again
/// is refused as invalid and bans nothing more.
pub proof fn lemma_logout_twice(
    token: Seq<char>,
    key: Seq<u8>,
    now1: int,
    r1: Result<(), AuthApiError>,
    now2: int,
    r2: Result<(), AuthApiError>,
    s0: Set<Seq<char>>,
    s1: Set<Seq<char>>,
    s2: Set<Seq<char>>,
)
    requires
        logout_outcome(Some(token), now1, key, r1, s0, s1),
        r1 is Ok,
        logout_outcome(Some(token), now2, key, r2, s1, s2),
    ensures
        s1.contains(token),
        r2 == Err::<(), AuthApiError>(AuthApiError::InvalidToken),
        s2 == s1,
{
}

/// Logging out with a token issued at `now` that is not banned succeeds and
/// bans exactly that token.
pub proof fn lemma_logout_fresh_token(
    email: Seq<char>,
    now: i64,
    key: Seq<u8>,
    token: Seq<char>,
    r: Result<(), AuthApiError>,
    before: Set<Seq<char>>,
    after: Set<Seq<char>>,
)
    requires
        expiry_fits(now as int),
        token == jwt_encoded(email, (now + TOKEN_TTL_SECONDS) as usize, key),
        !before.contains(token),
        logout_outcome(Some(token), now as int, key, r, before, after),
    ensures
        r is Ok,
        after == before.insert(token),
{
    assert(jwt_encoded(email, (now + TOKEN_TTL_SECONDS) as usize, key) == token);
}

/// Ends a session: a missing token, or one that is not trusted at time `now`,
/// is refused; a trusted one is banned.
pub fn logout_at<B: BannedTokenStore>(banned: &mut B, token: Option<Token>, now: i64, secret: &JwtSecret) -> (r: Result<(), AuthApiError>)
    requires
        old(banned).wf(),
    ensures
        final(banned).wf(),
        logout_outcome(
            presented(token),
            now as int,
            secret@,
            r,
            old(banned).banned(),
            final(banned).banned(),
        ),
{
    let token = match token {
        Some(t) => t,
        None => return Err(AuthApiError::MissingToken),
    };
    match validate_token_at(&token, now, secret) {
        Ok(_) => {
            if banned.is_banned(&token) {
                return Err(AuthApiError::InvalidToken);
            }
            let _ = banned.ban(token);
            Ok(())
        },
        Err(_) => Err(AuthApiError::InvalidToken),
    }
}

/// `logout_at` with the current time.
pub fn logout<B: BannedTokenStore>(banned: &mut B, token: Option<Token>, secret: &JwtSecret) -> (r: Result<(), AuthApiError>)
    requires
        old(banned).wf(),
    ensures
        final(banned).wf(),
        exists|now: i64|
            #[trigger] logout_outcome(
                presented(token),
                now as int,
                secret@,
                r,
                old(banned).banned(),
                final(banned).banned(),
            ),
{
    logout_at(banned, token, now_timestamp(), secret)
}

} // verus!

use argon2::password_hash::{PasswordHash, PasswordHasher, PasswordVerifier, SaltString};
use argon2::{Algorithm, Argon2, Params, Version};
use vstd::prelude::*;
use vstd::utf8::encode_utf8;

verus! {

/// Memory cost of a fresh hash, in KiB.
pub const HASH_MEMORY_KIB: u32 = 15000;

/// Number of passes of a fresh hash.
pub const HASH_ITERATIONS: u32 = 2;

/// Lanes of a fresh hash.
pub const HASH_PARALLELISM: u32 = 1;

/// Bytes of random salt in a fresh hash.
pub const SALT_BYTES: usize = 16;

/// Most bytes of password that Argon2 hashes.
pub const MAX_PASSWORD_BYTES: usize = 0xFFFF_FFFF;

/// Fewest bytes a raw password may have.
pub const MIN_PASSWORD_BYTES: usize = 8;

#[derive(Debug, PartialEq, Eq)]
pub enum PasswordError {
    TooShort,
    HashingFailed,
    InvalidHash,
}

/// Length of `s` in UTF-8 bytes.
pub open spec fn byte_len(s: Seq<char>) -> nat {
    encode_utf8(s).len()
}

/// Whether Argon2 verification of `raw` against the PHC string `phc` succeeds.
pub uninterp spec fn phc_accepts(raw: Seq<char>, phc: Seq<char>) -> bool;

/// The PHC string that `argon2::PasswordHash` parses `s` into and prints back,
/// where it parses.
pub uninterp spec fn phc_normal_form(s: Seq<char>) -> Option<Seq<char>>;

/// Relies on `rand::random` for `[u8; 16]`: sixteen random bytes.
#[verifier::external_body]
fn random_salt() -> (r: Vec<u8>)
    ensures
        r@.len() == SALT_BYTES,
{
    rand::random::<[u8; 16]>().to_vec()
}

/// Relies on `argon2::Argon2::hash_password` (Argon2id, version 0x13): the PHC
/// string it returns embeds algorithm, parameters and salt, so that
/// `verify_password` recomputes the same output from the same password. With a
/// 16-byte salt and the fixed cost parameters, `SaltString::encode_b64` and
/// `Params::new` succeed, and hashing fails only for a password longer than
/// `argon2::MAX_PWD_LEN` bytes.
#[verifier::external_body]
fn argon2_hash(raw: &str, salt: &[u8], m_cost: u32, t_cost: u32, p_cost: u32) -> (r: Option<String>)
    ensures
        r is Some ==> phc_accepts(raw@, r->Some_0@),
        salt@.len() == SALT_BYTES && m_cost == HASH_MEMORY_KIB && t_cost == HASH_ITERATIONS
            && p_cost == HASH_PARALLELISM ==> (r is Some <==> byte_len(raw@) <= MAX_PASSWORD_BYTES),
{
    let salt = SaltString::encode_b64(salt).ok()?;
    let params = Params::new(m_cost, t_cost, p_cost, None).ok()?;
    let hasher = Argon2::new(Algorithm::Argon2id, Version::V0x13, params);
    hasher.hash_password(raw.as_bytes(), &salt).ok().map(|h| h.to_string())
}

/// Relies on `argon2::password_hash::PasswordHash::new` and
/// `PasswordVerifier::verify_password`: recomputes the hash of `raw` with the
/// parameters and salt that `phc` holds and compares the outputs.
#[verifier::external_body]
fn argon2_verify(raw: &str, phc: &str) -> (r: bool)
    ensures
        r == phc_accepts(raw@, phc@),
{
    match PasswordHash::new(phc) {
        Ok(h) => Argon2::default().verify_password(raw.as_bytes(), &h).is_ok(),
        Err(_) => false,
    }
}

/// Relies on `argon2::password_hash::PasswordHash::new` and its `Display`: the
/// PHC string parsed and printed back, or `None` where it does not parse.
#[verifier::external_body]
fn argon2_parse_phc(s: &str) -> (r: Option<String>)
    ensures
        match r {
            Some(t) => phc_normal_form(s@) == Some(t@),
            None => phc_normal_form(s@) is None,
        },
{
    PasswordHash::new(s).ok().map(|h| h.to_string())
}

/// A raw password of at least eight bytes.
#[derive(Debug, Clone)]
pub struct Password {
    value: String,
}

impl View for Password {
    type V = Seq<char>;

    closed spec fn view(&self) -> Seq<char> {
        self.value@
    }
}

impl Password {
    pub fn parse(s: String) -> (r: Result<Password, PasswordError>)
        ensures
            r is Ok <==> byte_len(s@) >= MIN_PASSWORD_BYTES,
            r is Ok ==> r->Ok_0@ == s@,
            r is Err ==> r->Err_0 == PasswordError::TooShort,
    {
        let bytes = s.as_str().as_bytes();
        if bytes.len() >= MIN_PASSWORD_BYTES {
            Ok(Password { value: s })
        } else {
            Err(PasswordError::TooShort)
        }
    }

    pub fn as_str(&self) -> (r: &str)
        ensures
            r@ == self@,
    {
        self.value.as_str()
    }
}

impl PartialEq for Password {
    fn eq(&self, other: &Password) -> (r: bool) {
        self.value == other.value
    }
}

impl vstd::std_specs::cmp::PartialEqSpecImpl for Password {
    open spec fn obeys_eq_spec() -> bool {
        true
    }

    open spec fn eq_spec(&self, other: &Password) -> bool {
        self@ == other@
    }
}

/// The salted Argon2 hash of a password, as a PHC string.
#[derive(Debug, Clone)]
pub struct HashedPassword {
    phc: String,
}

impl View for HashedPassword {
    type V = Seq<char>;

    closed spec fn view(&self) -> Seq<char> {
        self.phc@
    }
}

/// What hashing `raw` returns: a hash that accepts `raw`, for any password
/// that Argon2 takes; `HashingFailed` for a longer one.
pub open spec fn hash_outcome(raw: Seq<char>, r: Result<HashedPassword, PasswordError>) -> bool {
    if byte_len(raw) <= MAX_PASSWORD_BYTES {
        r is Ok && r->Ok_0.accepts(raw)
    } else {
        r == Err::<HashedPassword, PasswordError>(PasswordError::HashingFailed)
    }
}

impl HashedPassword {
    /// Whether checking `raw` against this hash succeeds.
    pub open spec fn accepts(&self, raw: Seq<char>) -> bool {
        phc_accepts(raw, self@)
    }

    /// Hashes `raw` under a fresh random salt with the fixed cost parameters.
    pub fn from_raw(raw: &Password) -> (r: Result<HashedPassword, PasswordError>)
        ensures
            hash_outcome(raw@, r),
    {
        let salt = random_salt();
        match argon2_hash(raw.as_str(), salt.as_slice(), HASH_MEMORY_KIB, HASH_ITERATIONS, HASH_PARALLELISM) {
            Some(phc) => Ok(HashedPassword { phc }),
            None => Err(PasswordError::HashingFailed),
        }
    }

    /// Checks the length of the raw text `s`, then hashes it.
    pub fn parse(s: String) -> (r: Result<HashedPassword, PasswordError>)
        ensures
            byte_len(s@) < MIN_PASSWORD_BYTES ==> r == Err::<HashedPassword, PasswordError>(PasswordError::TooShort),
            byte_len(s@) >= MIN_PASSWORD_BYTES ==> hash_outcome(s@, r),
    {
        let raw = Password::parse(s)?;
        HashedPassword::from_raw(&raw)
    }

    /// Takes a stored PHC string, as `argon2` parses and prints it back.
    pub fn from_password_hash(s: &str) -> (r: Result<HashedPassword, PasswordError>)
        ensures
            match phc_normal_form(s@) {
                Some(t) => r is Ok && r->Ok_0@ == t,
                None => r == Err::<HashedPassword, PasswordError>(PasswordError::InvalidHash),
            },
    {
        match argon2_parse_phc(s) {
            Some(phc) => Ok(HashedPassword { phc }),
            None => Err(PasswordError::InvalidHash),
        }
    }

    /// Recomputes the hash of `raw` with this hash's salt and parameters and
    /// compares.
    pub fn verify(&self, raw: &Password) -> (r: bool)
        ensures
            r == self.accepts(raw@),
    {
        argon2_verify(raw.as_str(), self.phc.as_str())
    }

    pub fn as_str(&self) -> (r: &str)
        ensures
            r@ == self@,
    {
        self.phc.as_str()
    }

    pub fn copied(&self) -> (r: HashedPassword)
        ensures
            r == *self,
    {
        HashedPassword { phc: self.phc.clone() }
    }
}

impl PartialEq for HashedPassword {
    fn eq(&self, other: &HashedPassword) -> (r: bool) {
        self.phc == other.phc
    }
}

impl vstd::std_specs::cmp::PartialEqSpecImpl for HashedPassword {
    open spec fn obeys_eq_spec() -> bool {
        true
    }

    open spec fn eq_spec(&self, other: &HashedPassword) -> bool {
        self@ == other@
    }
}

/// A valid password hashes, and checking it against its own hash succeeds:
/// `from_raw` returns `Ok`, and `verify` on that hash returns `true`.
pub proof fn lemma_verify_own_hash(raw: Password, hashed: Result<HashedPassword, PasswordError>, checked: bool)
    requires
        MIN_PASSWORD_BYTES <= byte_len(raw@) <= MAX_PASSWORD_BYTES,
        hash_outcome(raw@, hashed),
        hashed is Ok ==> checked == hashed->Ok_0.accepts(raw@),
    ensures
        hashed is Ok,
        checked,
{
}

} // verus!

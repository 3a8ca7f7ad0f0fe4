use std::str::FromStr;
use vstd::prelude::*;

verus! {

/// The hyphenated lower-case form of the UUID that `uuid::Uuid::parse_str`
/// reads from `s`, where it reads one.
pub uninterp spec fn uuid_canonical(s: Seq<char>) -> Option<Seq<char>>;

/// Relies on `uuid::Uuid::parse_str` and `String::from(Uuid)`: the UUID in
/// `s`, printed in hyphenated lower-case form.
#[verifier::external_body]
fn uuid_parse(s: &str) -> (r: Option<String>)
    ensures
        match r {
            Some(t) => uuid_canonical(s@) == Some(t@),
            None => uuid_canonical(s@) is None,
        },
{
    uuid::Uuid::parse_str(s).ok().map(String::from)
}

/// Relies on `uuid::Uuid::new_v4` and its `Display`: a random UUID in
/// hyphenated lower-case form, which `parse_str` reads back unchanged.
#[verifier::external_body]
fn uuid_fresh() -> (r: String)
    ensures
        uuid_canonical(r@) == Some(r@),
{
    uuid::Uuid::new_v4().to_string()
}

/// Relies on `rand::random_range` over `lo..hi`: a uniform value in it.
#[verifier::external_body]
fn random_in(lo: u32, hi: u32) -> (r: u32)
    requires
        lo < hi,
    ensures
        lo <= r < hi,
{
    rand::random_range(lo..hi)
}

#[derive(Debug, Clone, Copy, PartialEq, Eq)]
pub enum LoginAttemptIdError {
    InvalidUuid,
}

#[derive(Debug, Clone, Copy, PartialEq, Eq)]
pub enum TwoFACodeError {
    Invalid,
}

/// Identifies one login that waits for its second factor: a UUID in
/// hyphenated lower-case form.
#[derive(Debug, Clone)]
pub struct LoginAttemptId {
    value: String,
}

impl View for LoginAttemptId {
    type V = Seq<char>;

    closed spec fn view(&self) -> Seq<char> {
        self.value@
    }
}

impl LoginAttemptId {
    pub open spec fn wf(&self) -> bool {
        uuid_canonical(self@) == Some(self@)
    }

    pub fn parse(s: &str) -> (r: Result<LoginAttemptId, LoginAttemptIdError>)
        ensures
            match uuid_canonical(s@) {
                Some(t) => r is Ok && r->Ok_0@ == t,
                None => r == Err::<LoginAttemptId, LoginAttemptIdError>(LoginAttemptIdError::InvalidUuid),
            },
    {
        match uuid_parse(s) {
            Some(value) => Ok(LoginAttemptId { value }),
            None => Err(LoginAttemptIdError::InvalidUuid),
        }
    }

    /// A fresh random identifier.
    pub fn fresh() -> (r: LoginAttemptId)
        ensures
            r.wf(),
    {
        LoginAttemptId { value: uuid_fresh() }
    }

    pub fn as_str(&self) -> (r: &str)
        ensures
            r@ == self@,
    {
        self.value.as_str()
    }

    pub fn copied(&self) -> (r: LoginAttemptId)
        ensures
            r == *self,
    {
        LoginAttemptId { value: self.value.clone() }
    }
}

impl Default for LoginAttemptId {
    fn default() -> (r: LoginAttemptId)
        ensures
            r.wf(),
    {
        LoginAttemptId::fresh()
    }
}

impl FromStr for LoginAttemptId {
    type Err = LoginAttemptIdError;

    fn from_str(s: &str) -> Result<LoginAttemptId, LoginAttemptIdError> {
        LoginAttemptId::parse(s)
    }
}

impl PartialEq for LoginAttemptId {
    fn eq(&self, other: &LoginAttemptId) -> (r: bool) {
        self.value == other.value
    }
}

impl vstd::std_specs::cmp::PartialEqSpecImpl for LoginAttemptId {
    open spec fn obeys_eq_spec() -> bool {
        true
    }

    open spec fn eq_spec(&self, other: &LoginAttemptId) -> bool {
        self@ == other@
    }
}

pub open spec fn is_ascii_digit(c: char) -> bool {
    '0' <= c && c <= '9'
}

/// Six characters, each an ASCII digit.
pub open spec fn is_six_digits(s: Seq<char>) -> bool {
    s.len() == 6 && forall|i: int| 0 <= i < 6 ==> is_ascii_digit(#[trigger] s[i])
}

pub open spec fn digit_char(d: int) -> char {
    if d == 0 {
        '0'
    } else if d == 1 {
        '1'
    } else if d == 2 {
        '2'
    } else if d == 3 {
        '3'
    } else if d == 4 {
        '4'
    } else if d == 5 {
        '5'
    } else if d == 6 {
        '6'
    } else if d == 7 {
        '7'
    } else if d == 8 {
        '8'
    } else {
        '9'
    }
}

/// The six decimal digits of `n`, most significant first.
pub open spec fn six_digit_chars(n: int) -> Seq<char> {
    seq![
        digit_char(n / 100000 % 10),
        digit_char(n / 10000 % 10),
        digit_char(n / 1000 % 10),
        digit_char(n / 100 % 10),
        digit_char(n / 10 % 10),
        digit_char(n % 10),
    ]
}

fn digit_str(d: u32) -> (r: &'static str)
    requires
        d < 10,
    ensures
        r@ == seq![digit_char(d as int)],
{
    if d == 0 {
        proof { reveal_strlit("0"); }
        "0"
    } else if d == 1 {
        proof { reveal_strlit("1"); }
        "1"
    } else if d == 2 {
        proof { reveal_strlit("2"); }
        "2"
    } else if d == 3 {
        proof { reveal_strlit("3"); }
        "3"
    } else if d == 4 {
        proof { reveal_strlit("4"); }
        "4"
    } else if d == 5 {
        proof { reveal_strlit("5"); }
        "5"
    } else if d == 6 {
        proof { reveal_strlit("6"); }
        "6"
    } else if d == 7 {
        proof { reveal_strlit("7"); }
        "7"
    } else if d == 8 {
        proof { reveal_strlit("8"); }
        "8"
    } else {
        proof { reveal_strlit("9"); }
        "9"
    }
}

fn six_digit_string(n: u32) -> (r: String)
    ensures
        r@ == six_digit_chars(n as int),
{
    let mut out = String::new();
    out.append(digit_str(n / 100000 % 10));
    out.append(digit_str(n / 10000 % 10));
    out.append(digit_str(n / 1000 % 10));
    out.append(digit_str(n / 100 % 10));
    out.append(digit_str(n / 10 % 10));
    out.append(digit_str(n % 10));
    assert(out@ =~= six_digit_chars(n as int));
    out
}

/// A second-factor code: six ASCII digits.
#[derive(Debug, Clone)]
pub struct TwoFACode {
    value: String,
}

impl View for TwoFACode {
    type V = Seq<char>;

    closed spec fn view(&self) -> Seq<char> {
        self.value@
    }
}

impl TwoFACode {
    pub open spec fn wf(&self) -> bool {
        is_six_digits(self@)
    }

    pub fn parse(s: &str) -> (r: Result<TwoFACode, TwoFACodeError>)
        ensures
            r is Ok <==> is_six_digits(s@),
            r is Ok ==> r->Ok_0@ == s@,
            r is Err ==> r->Err_0 == TwoFACodeError::Invalid,
    {
        let n = s.unicode_len();
        if n != 6 {
            return Err(TwoFACodeError::Invalid);
        }
        let mut i: usize = 0;
        while i < 6
            invariant
                n == s@.len() == 6,
                i <= 6,
                forall|k: int| 0 <= k < i ==> is_ascii_digit(#[trigger] s@[k]),
            decreases 6 - i,
        {
            let c = s.get_char(i);
            if !('0' <= c && c <= '9') {
                return Err(TwoFACodeError::Invalid);
            }
            i = i + 1;
        }
        Ok(TwoFACode { value: s.to_string() })
    }

    /// The code whose six digits are the decimal form of `n`, padded with
    /// leading zeros.
    pub fn from_number(n: u32) -> (r: TwoFACode)
        requires
            n < 1_000_000,
        ensures
            r@ == six_digit_chars(n as int),
            r.wf(),
    {
        let value = six_digit_string(n);
        assert(forall|i: int| 0 <= i < 6 ==> is_ascii_digit(#[trigger] six_digit_chars(n as int)[i]));
        TwoFACode { value }
    }

    /// A fresh random code: the decimal form of a number drawn from
    /// 100000..999999.
    pub fn fresh() -> (r: TwoFACode)
        ensures
            r.wf(),
            exists|n: int| 100_000 <= n < 999_999 && r@ == #[trigger] six_digit_chars(n),
    {
        let n = random_in(100_000, 999_999);
        TwoFACode::from_number(n)
    }

    pub fn as_str(&self) -> (r: &str)
        ensures
            r@ == self@,
    {
        self.value.as_str()
    }

    pub fn copied(&self) -> (r: TwoFACode)
        ensures
            r == *self,
    {
        TwoFACode { value: self.value.clone() }
    }
}

impl Default for TwoFACode {
    fn default() -> (r: TwoFACode)
        ensures
            r.wf(),
            exists|n: int| 100_000 <= n < 999_999 && r@ == #[trigger] six_digit_chars(n),
    {
        TwoFACode::fresh()
    }
}

impl FromStr for TwoFACode {
    type Err = TwoFACodeError;

    fn from_str(s: &str) -> Result<TwoFACode, TwoFACodeError> {
        TwoFACode::parse(s)
    }
}

impl PartialEq for TwoFACode {
    fn eq(&self, other: &TwoFACode) -> (r: bool) {
        self.value == other.value
    }
}

impl vstd::std_specs::cmp::PartialEqSpecImpl for TwoFACode {
    open spec fn obeys_eq_spec() -> bool {
        true
    }

    open spec fn eq_spec(&self, other: &TwoFACode) -> bool {
        self@ == other@
    }
}

} // verus!

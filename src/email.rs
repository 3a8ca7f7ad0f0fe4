use validator::ValidateEmail;
use vstd::prelude::*;

verus! {

/// Position of the last `@` in `s`, or -1 where there is none.
pub open spec fn last_at(s: Seq<char>) -> int
    decreases s.len(),
{
    if s.len() == 0 {
        -1
    } else if s.last() == '@' {
        s.len() - 1
    } else {
        last_at(s.drop_last())
    }
}

pub open spec fn contains_char(s: Seq<char>, c: char) -> bool {
    exists|i: int| 0 <= i < s.len() && s[i] == c
}

/// What follows the last `@`.
pub open spec fn domain_part(s: Seq<char>) -> Seq<char> {
    s.subrange(last_at(s) + 1, s.len() as int)
}

/// A non-empty local part, an `@`, and a domain that holds a `.`.
pub open spec fn has_email_shape(s: Seq<char>) -> bool {
    last_at(s) > 0 && contains_char(domain_part(s), '.')
}

/// Whether the HTML5 address grammar, as the `validator` crate checks it,
/// accepts `s`.
pub uninterp spec fn html5_email_valid(s: Seq<char>) -> bool;

pub open spec fn is_valid_email(s: Seq<char>) -> bool {
    has_email_shape(s) && html5_email_valid(s)
}

/// Relies on `validator::ValidateEmail::validate_email` for `str`: a pure check
/// of the characters, which refuses any text without an `@`.
#[verifier::external_body]
fn validate_html5_email(s: &str) -> (r: bool)
    ensures
        r == html5_email_valid(s@),
        r ==> contains_char(s@, '@'),
{
    s.validate_email()
}

#[derive(Debug, PartialEq, Eq)]
pub enum EmailError {
    InvalidFormat,
}

/// An e-mail address that passed `Email::parse`.
#[derive(Debug, Clone, Eq, Hash)]
pub struct Email {
    value: String,
}

impl View for Email {
    type V = Seq<char>;

    closed spec fn view(&self) -> Seq<char> {
        self.value@
    }
}

fn find_last_at(s: &str) -> (r: Option<usize>)
    ensures
        match r {
            Some(i) => last_at(s@) == i as int && i < s@.len() <= usize::MAX,
            None => last_at(s@) == -1,
        },
{
    let n = s.unicode_len();
    let mut i: usize = 0;
    let mut found: Option<usize> = None;
    while i < n
        invariant
            n == s@.len(),
            i <= n,
            match found {
                Some(j) => last_at(s@.subrange(0, i as int)) == j as int,
                None => last_at(s@.subrange(0, i as int)) == -1,
            },
        decreases n - i,
    {
        let c = s.get_char(i);
        assert(s@.subrange(0, i + 1).drop_last() =~= s@.subrange(0, i as int));
        if c == '@' {
            found = Some(i);
        }
        i = i + 1;
    }
    assert(s@.subrange(0, n as int) =~= s@);
    proof {
        lemma_last_at_is_at(s@);
    }
    found
}

fn has_dot_from(s: &str, start: usize) -> (r: bool)
    requires
        start <= s@.len(),
    ensures
        r == contains_char(s@.subrange(start as int, s@.len() as int), '.'),
{
    let n = s.unicode_len();
    let mut j: usize = start;
    while j < n
        invariant
            n == s@.len(),
            start <= j <= n,
            forall|k: int| start <= k < j ==> s@[k] != '.',
        decreases n - j,
    {
        if s.get_char(j) == '.' {
            assert(s@.subrange(start as int, n as int)[j - start] == '.');
            return true;
        }
        j = j + 1;
    }
    assert forall|k: int| 0 <= k < n - start implies s@.subrange(start as int, n as int)[k] != '.' by {
        assert(s@[start + k] != '.');
    }
    false
}

impl Email {
    /// Accepts `s` exactly when it has a local part, an `@` and a dotted domain,
    /// and the HTML5 address grammar accepts it.
    pub fn parse(s: String) -> (r: Result<Email, EmailError>)
        ensures
            r is Ok <==> is_valid_email(s@),
            r is Ok ==> r->Ok_0@ == s@,
            r is Err ==> r->Err_0 == EmailError::InvalidFormat,
    {
        let shaped = match find_last_at(s.as_str()) {
            Some(i) => i > 0 && has_dot_from(s.as_str(), i + 1),
            None => false,
        };
        if shaped && validate_html5_email(s.as_str()) {
            Ok(Email { value: s })
        } else {
            Err(EmailError::InvalidFormat)
        }
    }

    pub fn as_str(&self) -> (r: &str)
        ensures
            r@ == self@,
    {
        self.value.as_str()
    }

    /// A copy that Verus knows to be equal to `self`.
    pub fn copied(&self) -> (r: Email)
        ensures
            r == *self,
    {
        Email { value: self.value.clone() }
    }

    pub fn same_as(&self, other: &Email) -> (r: bool)
        ensures
            r == (self@ == other@),
    {
        self.value == other.value
    }
}

impl PartialEq for Email {
    fn eq(&self, other: &Email) -> (r: bool) {
        self.value == other.value
    }
}

impl vstd::std_specs::cmp::PartialEqSpecImpl for Email {
    open spec fn obeys_eq_spec() -> bool {
        true
    }

    open spec fn eq_spec(&self, other: &Email) -> bool {
        self@ == other@
    }
}

/// An address without an `@`, or whose domain holds no `.`, is refused.
pub proof fn lemma_malformed_email_refused(s: Seq<char>)
    requires
        !contains_char(s, '@') || !contains_char(domain_part(s), '.'),
    ensures
        !is_valid_email(s),
{
    if !contains_char(s, '@') {
        lemma_last_at_is_at(s);
    }
}

proof fn lemma_last_at_is_at(s: Seq<char>)
    ensures
        -1 <= last_at(s) < s.len(),
        last_at(s) >= 0 ==> s[last_at(s)] == '@',
    decreases s.len(),
{
    if s.len() > 0 && s.last() != '@' {
        lemma_last_at_is_at(s.drop_last());
    }
}

} // verus!

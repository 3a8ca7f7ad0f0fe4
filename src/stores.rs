//! The interfaces of the three stores that the flows depend on, each with its
//! model, and the outcomes of their operations.

use crate::email::Email;
use crate::password::Password;
use crate::token::Token;
use crate::two_fa::{LoginAttemptId, TwoFACode};
use crate::user::User;
use vstd::prelude::*;

verus! {

#[derive(Debug, Clone, Copy, PartialEq, Eq)]
pub enum UserStoreError {
    UserAlreadyExists,
    UserNotFound,
    InvalidCredentials,
    IncorrectCredentials,
    UnexpectedError,
}

#[derive(Debug, Clone, Copy, PartialEq, Eq, Hash)]
pub enum BannedTokenResult {
    TokenAlreadyBanned,
    TokenBanned,
    TokenNotBanned,
    TokenUnbanned,
}

#[derive(Debug, Clone, Copy, PartialEq, Eq)]
pub enum TwoFACodeStoreError {
    EmailNotFound,
}

/// What `add_user` does: refuse a known address, else insert.
pub open spec fn add_user_outcome(
    before: Map<Seq<char>, User>,
    user: User,
    r: Result<(), UserStoreError>,
    after: Map<Seq<char>, User>,
) -> bool {
    if before.contains_key(user.email@) {
        r == Err::<(), UserStoreError>(UserStoreError::UserAlreadyExists) && after == before
    } else {
        r is Ok && after == before.insert(user.email@, user)
    }
}

/// What `ban` does: add the token, and say whether it was there.
pub open spec fn ban_outcome(
    before: Set<Seq<char>>,
    token: Seq<char>,
    r: BannedTokenResult,
    after: Set<Seq<char>>,
) -> bool {
    &&& after == before.insert(token)
    &&& r == if before.contains(token) {
        BannedTokenResult::TokenAlreadyBanned
    } else {
        BannedTokenResult::TokenBanned
    }
}

/// Adding two users with the same new address: the first is added and the
/// directory grows by exactly one; the second is refused as a duplicate and
/// changes nothing.
pub proof fn lemma_add_same_email_twice(
    u0: Map<Seq<char>, User>,
    first: User,
    r1: Result<(), UserStoreError>,
    u1: Map<Seq<char>, User>,
    second: User,
    r2: Result<(), UserStoreError>,
    u2: Map<Seq<char>, User>,
)
    requires
        u0.dom().finite(),
        !u0.contains_key(first.email@),
        second.email@ == first.email@,
        add_user_outcome(u0, first, r1, u1),
        add_user_outcome(u1, second, r2, u2),
    ensures
        r1 is Ok,
        r2 == Err::<(), UserStoreError>(UserStoreError::UserAlreadyExists),
        u1.len() == u0.len() + 1,
        u2 == u1,
{
}

/// Banning a token that is already banned reports so and leaves the list, and
/// so its size, unchanged.
pub proof fn lemma_ban_twice(
    s0: Set<Seq<char>>,
    token: Seq<char>,
    r1: BannedTokenResult,
    s1: Set<Seq<char>>,
    r2: BannedTokenResult,
    s2: Set<Seq<char>>,
)
    requires
        ban_outcome(s0, token, r1, s1),
        ban_outcome(s1, token, r2, s2),
    ensures
        r2 == BannedTokenResult::TokenAlreadyBanned,
        s2 == s1,
        s2.len() == s1.len(),
{
    assert(s1.insert(token) =~= s1);
}

/// The registered users, keyed by address.
pub trait UserStore {
    spec fn users(&self) -> Map<Seq<char>, User>;

    spec fn wf(&self) -> bool;

    proof fn lemma_users(&self)
        requires
            self.wf(),
        ensures
            self.users().dom().finite(),
            forall|k: Seq<char>| #[trigger] self.users().contains_key(k) ==> self.users()[k].email@ == k,
    ;

    fn add_user(&mut self, user: User) -> (r: Result<(), UserStoreError>)
        requires
            old(self).wf(),
        ensures
            final(self).wf(),
            add_user_outcome(old(self).users(), user, r, final(self).users()),
    ;

    fn get_user(&self, email: &Email) -> (r: Result<User, UserStoreError>)
        requires
            self.wf(),
        ensures
            self.users().contains_key(email@) ==> r == Ok::<User, UserStoreError>(self.users()[email@]),
            !self.users().contains_key(email@) ==> r == Err::<User, UserStoreError>(UserStoreError::UserNotFound),
    ;

    /// Looks the address up and checks the password against the stored hash.
    fn validate_user(&self, email: &Email, password: &Password) -> (r: Result<User, UserStoreError>)
        requires
            self.wf(),
        ensures
            !self.users().contains_key(email@) ==> r == Err::<User, UserStoreError>(UserStoreError::UserNotFound),
            self.users().contains_key(email@) && self.users()[email@].password.accepts(password@)
                ==> r == Ok::<User, UserStoreError>(self.users()[email@]),
            self.users().contains_key(email@) && !self.users()[email@].password.accepts(password@)
                ==> r == Err::<User, UserStoreError>(UserStoreError::IncorrectCredentials),
    ;

    fn delete_user(&mut self, email: &Email) -> (r: Result<User, UserStoreError>)
        requires
            old(self).wf(),
        ensures
            final(self).wf(),
            old(self).users().contains_key(email@) ==> r == Ok::<User, UserStoreError>(old(self).users()[email@])
                && final(self).users() == old(self).users().remove(email@),
            !old(self).users().contains_key(email@) ==> r == Err::<User, UserStoreError>(UserStoreError::UserNotFound)
                && final(self).users() == old(self).users(),
    ;
}

/// The tokens that are no longer trusted, however valid they are otherwise.
pub trait BannedTokenStore {
    spec fn banned(&self) -> Set<Seq<char>>;

    spec fn wf(&self) -> bool;

    proof fn lemma_banned(&self)
        requires
            self.wf(),
        ensures
            self.banned().finite(),
    ;

    fn ban(&mut self, token: Token) -> (r: BannedTokenResult)
        requires
            old(self).wf(),
        ensures
            final(self).wf(),
            ban_outcome(old(self).banned(), token@, r, final(self).banned()),
    ;

    fn is_banned(&self, token: &Token) -> (r: bool)
        requires
            self.wf(),
        ensures
            r == self.banned().contains(token@),
    ;

    fn unban(&mut self, token: &Token) -> (r: BannedTokenResult)
        requires
            old(self).wf(),
        ensures
            final(self).wf(),
            final(self).banned() == old(self).banned().remove(token@),
            r == if old(self).banned().contains(token@) {
                BannedTokenResult::TokenUnbanned
            } else {
                BannedTokenResult::TokenNotBanned
            },
    ;
}

/// The pending second-factor challenges, at most one per address.
pub trait TwoFACodeStore {
    spec fn codes(&self) -> Map<Seq<char>, (LoginAttemptId, TwoFACode)>;

    spec fn wf(&self) -> bool;

    proof fn lemma_codes(&self)
        requires
            self.wf(),
        ensures
            self.codes().dom().finite(),
    ;

    /// Puts a challenge for `email`, replacing any earlier one.
    fn add(&mut self, email: Email, login_attempt_id: LoginAttemptId, code: TwoFACode) -> (r: Result<(), TwoFACodeStoreError>)
        requires
            old(self).wf(),
        ensures
            final(self).wf(),
            r is Ok,
            final(self).codes() == old(self).codes().insert(email@, (login_attempt_id, code)),
    ;

    fn remove(&mut self, email: &Email) -> (r: Result<(), TwoFACodeStoreError>)
        requires
            old(self).wf(),
        ensures
            final(self).wf(),
            final(self).codes() == old(self).codes().remove(email@),
            old(self).codes().contains_key(email@) <==> r is Ok,
            r is Err ==> r->Err_0 == TwoFACodeStoreError::EmailNotFound,
    ;

    fn get(&self, email: &Email) -> (r: Result<(LoginAttemptId, TwoFACode), TwoFACodeStoreError>)
        requires
            self.wf(),
        ensures
            self.codes().contains_key(email@) ==> r == Ok::<(LoginAttemptId, TwoFACode), TwoFACodeStoreError>(self.codes()[email@]),
            !self.codes().contains_key(email@) ==> r == Err::<(LoginAttemptId, TwoFACode), TwoFACodeStoreError>(TwoFACodeStoreError::EmailNotFound),
    ;
}

} // verus!

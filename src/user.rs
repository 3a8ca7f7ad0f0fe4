use crate::email::Email;
use crate::password::HashedPassword;
use vstd::prelude::*;

verus! {

/// A registered user; the directory keys it by its address.
#[derive(Clone, Debug)]
pub struct User {
    pub email: Email,
    pub password: HashedPassword,
    pub requires_2fa: bool,
}

impl User {
    pub fn new(email: Email, password: HashedPassword, requires_2fa: bool) -> (r: User)
        ensures
            r == (User { email, password, requires_2fa }),
    {
        User { email, password, requires_2fa }
    }

    pub fn copied(&self) -> (r: User)
        ensures
            r == *self,
    {
        User { email: self.email.copied(), password: self.password.copied(), requires_2fa: self.requires_2fa }
    }
}

impl PartialEq for User {
    fn eq(&self, other: &User) -> (r: bool) {
        self.email == other.email && self.password == other.password && self.requires_2fa == other.requires_2fa
    }
}

impl vstd::std_specs::cmp::PartialEqSpecImpl for User {
    open spec fn obeys_eq_spec() -> bool {
        true
    }

    open spec fn eq_spec(&self, other: &User) -> bool {
        self.email@ == other.email@ && self.password@ == other.password@ && self.requires_2fa == other.requires_2fa
    }
}

} // verus!

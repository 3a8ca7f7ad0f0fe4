use crate::email::Email;
use crate::keyed::{
    entries_to_map, lemma_entries_len, lemma_map_absent, lemma_map_absent_entries, lemma_map_entry,
    lemma_map_finite, lemma_map_push, lemma_map_remove, lemma_unique_after_remove, unique_keys,
};
use crate::password::Password;
use crate::stores::{add_user_outcome, UserStore, UserStoreError};
use crate::user::User;
use vstd::prelude::*;

verus! {

/// An in-memory user directory: a list of users with distinct addresses.
#[derive(Debug)]
pub struct HashMapUserStore {
    users: Vec<User>,
}

impl HashMapUserStore {
    pub closed spec fn entries(&self) -> Seq<(Seq<char>, User)> {
        self.users@.map_values(|u: User| (u.email@, u))
    }

    pub fn new() -> (r: HashMapUserStore)
        ensures
            r.wf(),
            r.users() == Map::<Seq<char>, User>::empty(),
    {
        let r = HashMapUserStore { users: Vec::new() };
        assert(r.entries() =~= Seq::<(Seq<char>, User)>::empty());
        r
    }

    /// The number of registered users.
    pub fn len(&self) -> (r: usize)
        requires
            self.wf(),
        ensures
            r == self.users().len(),
    {
        proof {
            lemma_entries_len(self.entries());
        }
        self.users.len()
    }

    fn find(&self, email: &Email) -> (r: Option<usize>)
        requires
            self.wf(),
        ensures
            match r {
                Some(i) => i < self.users@.len() && self.entries()[i as int].0 == email@
                    && self.users().contains_key(email@) && self.users()[email@] == self.users@[i as int],
                None => !self.users().contains_key(email@),
            },
    {
        let mut i: usize = 0;
        while i < self.users.len()
            invariant
                self.wf(),
                i <= self.users@.len(),
                forall|k: int| 0 <= k < i ==> self.entries()[k].0 != email@,
            decreases self.users@.len() - i,
        {
            if self.users[i].email.same_as(email) {
                proof {
                    lemma_map_entry(self.entries(), i as int);
                }
                return Some(i);
            }
            i = i + 1;
        }
        proof {
            lemma_map_absent(self.entries(), email@);
        }
        None
    }
}

impl Default for HashMapUserStore {
    fn default() -> (r: HashMapUserStore)
        ensures
            r.wf(),
            r.users() == Map::<Seq<char>, User>::empty(),
    {
        HashMapUserStore::new()
    }
}

impl UserStore for HashMapUserStore {
    closed spec fn users(&self) -> Map<Seq<char>, User> {
        entries_to_map(self.entries())
    }

    closed spec fn wf(&self) -> bool {
        unique_keys(self.entries())
    }

    proof fn lemma_users(&self) {
        lemma_map_finite(self.entries());
        assert forall|k: Seq<char>| #[trigger] self.users().contains_key(k) implies self.users()[k].email@ == k by {
            if forall|i: int| 0 <= i < self.entries().len() ==> self.entries()[i].0 != k {
                lemma_map_absent(self.entries(), k);
            }
            let i = choose|i: int| 0 <= i < self.entries().len() && self.entries()[i].0 == k;
            lemma_map_entry(self.entries(), i);
        }
    }

    fn add_user(&mut self, user: User) -> (r: Result<(), UserStoreError>) {
        match self.find(&user.email) {
            Some(_) => Err(UserStoreError::UserAlreadyExists),
            None => {
                proof {
                    lemma_map_absent_entries(self.entries(), user.email@);
                    lemma_map_push(self.entries(), (user.email@, user));
                }
                let ghost before = self.entries();
                self.users.push(user);
                assert(self.entries() =~= before.push((user.email@, user)));
                Ok(())
            },
        }
    }

    fn get_user(&self, email: &Email) -> (r: Result<User, UserStoreError>) {
        match self.find(email) {
            Some(i) => Ok(self.users[i].copied()),
            None => Err(UserStoreError::UserNotFound),
        }
    }

    fn validate_user(&self, email: &Email, password: &Password) -> (r: Result<User, UserStoreError>) {
        match self.find(email) {
            Some(i) => {
                if self.users[i].password.verify(password) {
                    Ok(self.users[i].copied())
                } else {
                    Err(UserStoreError::IncorrectCredentials)
                }
            },
            None => Err(UserStoreError::UserNotFound),
        }
    }

    fn delete_user(&mut self, email: &Email) -> (r: Result<User, UserStoreError>) {
        match self.find(email) {
            Some(i) => {
                let ghost before = self.entries();
                proof {
                    lemma_map_remove(before, i as int);
                }
                let u = self.users.remove(i);
                assert(self.entries() =~= before.remove(i as int));
                proof {
                    lemma_unique_after_remove(before, i as int);
                }
                Ok(u)
            },
            None => Err(UserStoreError::UserNotFound),
        }
    }
}

} // verus!

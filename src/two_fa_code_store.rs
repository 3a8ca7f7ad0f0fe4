use crate::email::Email;
use crate::keyed::{
    entries_to_map, lemma_map_absent, lemma_map_absent_entries, lemma_map_entry, lemma_map_finite,
    lemma_map_push, lemma_map_remove, lemma_map_update, lemma_unique_after_remove, unique_keys,
};
use crate::stores::{TwoFACodeStore, TwoFACodeStoreError};
use crate::two_fa::{LoginAttemptId, TwoFACode};
use vstd::prelude::*;

verus! {

/// One pending challenge.
#[derive(Debug, Clone)]
pub struct TwoFAEntry {
    pub email: Email,
    pub login_attempt_id: LoginAttemptId,
    pub code: TwoFACode,
}

pub open spec fn entry_pair(e: TwoFAEntry) -> (Seq<char>, (LoginAttemptId, TwoFACode)) {
    (e.email@, (e.login_attempt_id, e.code))
}

/// An in-memory challenge store: entries with distinct addresses.
#[derive(Debug)]
pub struct HashMapTwoFACodeStore {
    codes: Vec<TwoFAEntry>,
}

impl HashMapTwoFACodeStore {
    pub closed spec fn entries(&self) -> Seq<(Seq<char>, (LoginAttemptId, TwoFACode))> {
        self.codes@.map_values(|e: TwoFAEntry| entry_pair(e))
    }

    pub fn new() -> (r: HashMapTwoFACodeStore)
        ensures
            r.wf(),
            r.codes() == Map::<Seq<char>, (LoginAttemptId, TwoFACode)>::empty(),
    {
        let r = HashMapTwoFACodeStore { codes: Vec::new() };
        assert(r.entries() =~= Seq::<(Seq<char>, (LoginAttemptId, TwoFACode))>::empty());
        r
    }

    fn find(&self, email: &Email) -> (r: Option<usize>)
        requires
            self.wf(),
        ensures
            match r {
                Some(i) => i < self.codes@.len() && self.entries()[i as int].0 == email@
                    && self.codes().contains_key(email@)
                    && self.codes()[email@] == (self.codes@[i as int].login_attempt_id, self.codes@[i as int].code),
                None => !self.codes().contains_key(email@),
            },
    {
        let mut i: usize = 0;
        while i < self.codes.len()
            invariant
                self.wf(),
                i <= self.codes@.len(),
                forall|k: int| 0 <= k < i ==> self.entries()[k].0 != email@,
            decreases self.codes@.len() - i,
        {
            if self.codes[i].email.same_as(email) {
                proof {
                    lemma_map_entry(self.entries(), i as int);
                }
                return Some(i);
            }
            i = i + 1;
        }
        proof {
            lemma_map_absent(self.entries(), email@);
        }
        None
    }
}

impl Default for HashMapTwoFACodeStore {
    fn default() -> (r: HashMapTwoFACodeStore)
        ensures
            r.wf(),
            r.codes() == Map::<Seq<char>, (LoginAttemptId, TwoFACode)>::empty(),
    {
        HashMapTwoFACodeStore::new()
    }
}

impl TwoFACodeStore for HashMapTwoFACodeStore {
    closed spec fn codes(&self) -> Map<Seq<char>, (LoginAttemptId, TwoFACode)> {
        entries_to_map(self.entries())
    }

    closed spec fn wf(&self) -> bool {
        unique_keys(self.entries())
    }

    proof fn lemma_codes(&self) {
        lemma_map_finite(self.entries());
    }

    fn add(&mut self, email: Email, login_attempt_id: LoginAttemptId, code: TwoFACode) -> (r: Result<(), TwoFACodeStoreError>) {
        let entry = TwoFAEntry { email, login_attempt_id, code };
        let ghost before = self.entries();
        match self.find(&entry.email) {
            Some(i) => {
                proof {
                    lemma_map_update(before, i as int, (login_attempt_id, code));
                }
                self.codes.set(i, entry);
                assert(self.entries() =~= before.update(i as int, (before[i as int].0, (login_attempt_id, code))));
                assert forall|a: int, b: int| 0 <= a < b < self.entries().len() implies self.entries()[a].0 != self.entries()[b].0 by {
                    assert(before[a].0 != before[b].0);
                }
            },
            None => {
                proof {
                    lemma_map_absent_entries(before, entry.email@);
                    lemma_map_push(before, entry_pair(entry));
                }
                self.codes.push(entry);
                assert(self.entries() =~= before.push(entry_pair(entry)));
            },
        }
        Ok(())
    }

    fn remove(&mut self, email: &Email) -> (r: Result<(), TwoFACodeStoreError>) {
        match self.find(email) {
            Some(i) => {
                let ghost before = self.entries();
                proof {
                    lemma_map_remove(before, i as int);
                    lemma_unique_after_remove(before, i as int);
                }
                let _ = self.codes.remove(i);
                assert(self.entries() =~= before.remove(i as int));
                Ok(())
            },
            None => {
                assert(self.codes().remove(email@) =~= self.codes());
                Err(TwoFACodeStoreError::EmailNotFound)
            },
        }
    }

    fn get(&self, email: &Email) -> (r: Result<(LoginAttemptId, TwoFACode), TwoFACodeStoreError>) {
        match self.find(email) {
            Some(i) => Ok((self.codes[i].login_attempt_id.copied(), self.codes[i].code.copied())),
            None => Err(TwoFACodeStoreError::EmailNotFound),
        }
    }
}

} // verus!

use crate::keyed::{
    entries_to_map, lemma_entries_len, lemma_map_absent, lemma_map_absent_entries, lemma_map_entry,
    lemma_map_finite, lemma_map_push, lemma_map_remove, lemma_unique_after_remove, unique_keys,
};
use crate::stores::{ban_outcome, BannedTokenResult, BannedTokenStore};
use crate::token::Token;
use vstd::prelude::*;

verus! {

/// An in-memory revocation list: distinct tokens, kept for the life of the
/// process.
#[derive(Debug)]
pub struct HashSetBannedTokenStore {
    tokens: Vec<Token>,
}

impl HashSetBannedTokenStore {
    pub closed spec fn entries(&self) -> Seq<(Seq<char>, ())> {
        self.tokens@.map_values(|t: Token| (t@, ()))
    }

    pub fn new() -> (r: HashSetBannedTokenStore)
        ensures
            r.wf(),
            r.banned() == Set::<Seq<char>>::empty(),
    {
        let r = HashSetBannedTokenStore { tokens: Vec::new() };
        assert(r.entries() =~= Seq::<(Seq<char>, ())>::empty());
        assert(r.banned() =~= Set::<Seq<char>>::empty());
        r
    }

    /// The number of banned tokens.
    pub fn len(&self) -> (r: usize)
        requires
            self.wf(),
        ensures
            r == self.banned().len(),
    {
        proof {
            lemma_entries_len(self.entries());
        }
        self.tokens.len()
    }

    fn find(&self, token: &Token) -> (r: Option<usize>)
        requires
            self.wf(),
        ensures
            match r {
                Some(i) => i < self.tokens@.len() && self.entries()[i as int].0 == token@
                    && self.banned().contains(token@),
                None => !self.banned().contains(token@),
            },
    {
        let mut i: usize = 0;
        while i < self.tokens.len()
            invariant
                self.wf(),
                i <= self.tokens@.len(),
                forall|k: int| 0 <= k < i ==> self.entries()[k].0 != token@,
            decreases self.tokens@.len() - i,
        {
            if self.tokens[i] == *token {
                proof {
                    lemma_map_entry(self.entries(), i as int);
                }
                return Some(i);
            }
            i = i + 1;
        }
        proof {
            lemma_map_absent(self.entries(), token@);
        }
        None
    }
}

impl Default for HashSetBannedTokenStore {
    fn default() -> (r: HashSetBannedTokenStore)
        ensures
            r.wf(),
            r.banned() == Set::<Seq<char>>::empty(),
    {
        HashSetBannedTokenStore::new()
    }
}

impl BannedTokenStore for HashSetBannedTokenStore {
    closed spec fn banned(&self) -> Set<Seq<char>> {
        entries_to_map(self.entries()).dom()
    }

    closed spec fn wf(&self) -> bool {
        unique_keys(self.entries())
    }

    proof fn lemma_banned(&self) {
        lemma_map_finite(self.entries());
    }

    fn ban(&mut self, token: Token) -> (r: BannedTokenResult) {
        match self.find(&token) {
            Some(_) => {
                assert(self.banned().insert(token@) =~= self.banned());
                BannedTokenResult::TokenAlreadyBanned
            },
            None => {
                let ghost before = self.entries();
                proof {
                    lemma_map_absent_entries(before, token@);
                    lemma_map_push(before, (token@, ()));
                }
                self.tokens.push(token);
                assert(self.entries() =~= before.push((token@, ())));
                assert(self.banned() =~= entries_to_map(before).dom().insert(token@));
                BannedTokenResult::TokenBanned
            },
        }
    }

    fn is_banned(&self, token: &Token) -> (r: bool) {
        self.find(token).is_some()
    }

    fn unban(&mut self, token: &Token) -> (r: BannedTokenResult) {
        match self.find(token) {
            Some(i) => {
                let ghost before = self.entries();
                proof {
                    lemma_map_remove(before, i as int);
                    lemma_unique_after_remove(before, i as int);
                }
                let _ = self.tokens.remove(i);
                assert(self.entries() =~= before.remove(i as int));
                assert(self.banned() =~= entries_to_map(before).dom().remove(token@));
                BannedTokenResult::TokenUnbanned
            },
            None => {
                assert(self.banned().remove(token@) =~= self.banned());
                BannedTokenResult::TokenNotBanned
            },
        }
    }
}

} // verus!

//! Password reset tokens, kept in memory.
//!
//! Rows live in a vector and are found by a linear scan. Ids come from a
//! counter that starts over after its last value. No operation fails but to
//! refuse a conflict.

use crate::errors::StoreError;
use crate::models::{PasswordResetToken, PasswordResetTokenView};
use crate::repositories::table::{
    distinct_keys, following_id, has_key, index, lemma_index_at, lemma_index_dom, lemma_index_len,
    lemma_index_push, lemma_index_remove, lemma_index_witness, Keyed,
};
use crate::repositories::traits::{reset_tokens_of_others, PasswordResetRepositoryTrait};
use vstd::prelude::*;

verus! {

/// Password reset tokens in a vector.
pub struct PasswordResetRepository {
    rows: Vec<PasswordResetToken>,
    next_id: u128,
}

impl PasswordResetRepository {
    /// An empty repository.
    pub fn new() -> (r: Self)
        ensures
            r.inv(),
            r.tokens() == Map::<Seq<char>, PasswordResetTokenView>::empty(),
            r.dependable(),
            r.next_id() == 1,
    {
        PasswordResetRepository { rows: Vec::new(), next_id: 1 }
    }

    /// Hands out the id for the next row and moves the counter on.
    fn take_id(&mut self) -> (id: u128)
        ensures
            id == old(self).next_id(),
            final(self).next_id() == following_id(id),
            final(self).rows == old(self).rows,
    {
        let id = self.next_id;
        self.next_id = if id == u128::MAX {
            1
        } else {
            id + 1
        };
        id
    }

    /// The id that the next row gets. Rows are numbered from 1 in the order
    /// in which they are made.
    pub closed spec fn next_id(&self) -> u128 {
        self.next_id
    }

    /// Number of tokens.
    pub fn len(&self) -> (n: usize)
        requires
            self.inv(),
        ensures
            n == self.tokens().dom().len(),
            self.tokens().dom().finite(),
    {
        proof {
            lemma_index_len(self.rows@);
        }
        self.rows.len()
    }

    fn position_of(&self, token: &String) -> (r: Option<usize>)
        ensures
            r matches Some(i) ==> i < self.rows@.len() && self.rows@[i as int].token@ == token@,
            r is None ==> !has_key(self.rows@, token@),
    {
        let mut i: usize = 0;
        while i < self.rows.len()
            invariant
                i <= self.rows@.len(),
                forall|j: int| 0 <= j < i ==> self.rows@[j].token@ != token@,
            decreases self.rows@.len() - i,
        {
            if self.rows[i].token == *token {
                return Some(i);
            }
            i += 1;
        }
        None
    }
}

impl PasswordResetRepositoryTrait for PasswordResetRepository {
    closed spec fn tokens(&self) -> Map<Seq<char>, PasswordResetTokenView> {
        index(self.rows@)
    }

    closed spec fn inv(&self) -> bool {
        distinct_keys(self.rows@)
    }

    open spec fn dependable(&self) -> bool {
        true
    }

    proof fn lemma_tokens_wf(&self) {
        let m = self.tokens();
        assert forall|t: Seq<char>| #[trigger] m.contains_key(t) implies m[t].token == t by {
            lemma_index_witness(self.rows@, t);
        }
    }

    fn create_token(&mut self, user_id: u128, token: &str, expires_at: u64, now: u64) -> (r: Result<
        PasswordResetToken,
        StoreError,
    >)
        ensures
            r matches Ok(row) ==> row.id == old(self).next_id(),
            final(self).next_id() == if r is Ok {
                following_id(old(self).next_id())
            } else {
                old(self).next_id()
            },
    {
        let token_owned = token.to_owned();
        proof {
            lemma_index_dom(self.rows@, token@);
        }
        match self.position_of(&token_owned) {
            Some(i) => {
                return Err(StoreError::Conflict);
            },
            None => {},
        }
        let id = self.take_id();
        let row = PasswordResetToken {
            id,
            user_id,
            token: token_owned,
            expires_at,
            created_at: now,
        };
        let result = row.clone();
        proof {
            lemma_index_push(self.rows@, row);
        }
        self.rows.push(row);
        Ok(result)
    }

    fn find_by_token(&self, token: &str) -> (r: Result<Option<PasswordResetToken>, StoreError>)
    {
        let token_owned = token.to_owned();
        match self.position_of(&token_owned) {
            Some(i) => {
                proof {
                    lemma_index_at(self.rows@, i as int);
                }
                Ok(Some(self.rows[i].clone()))
            },
            None => {
                proof {
                    lemma_index_dom(self.rows@, token@);
                }
                Ok(None)
            },
        }
    }

    fn delete_token(&mut self, token: &str) -> (r: Result<(), StoreError>)
        ensures
            final(self).next_id() == old(self).next_id(),
    {
        let token_owned = token.to_owned();
        match self.position_of(&token_owned) {
            Some(i) => {
                proof {
                    lemma_index_remove(self.rows@, i as int);
                }
                self.rows.remove(i);
            },
            None => {
                proof {
                    lemma_index_dom(self.rows@, token@);
                    assert(self.tokens().remove(token@) =~= self.tokens());
                }
            },
        }
        Ok(())
    }

    fn delete_all_user_tokens(&mut self, user_id: u128) -> (r: Result<(), StoreError>)
        ensures
            final(self).next_id() == old(self).next_id(),
    {
        let mut kept: Vec<PasswordResetToken> = Vec::new();
        let mut i: usize = 0;
        assert(self.rows@.take(0) =~= Seq::<PasswordResetToken>::empty());
        assert(index(kept@) =~= reset_tokens_of_others(index(self.rows@.take(0)), user_id));
        while i < self.rows.len()
            invariant
                i <= self.rows@.len(),
                distinct_keys(self.rows@),
                distinct_keys(kept@),
                index(kept@) == reset_tokens_of_others(index(self.rows@.take(i as int)), user_id),
            decreases self.rows@.len() - i,
        {
            let row = self.rows[i].clone();
            proof {
                let rows = self.rows@;
                let prefix = rows.take(i as int);
                assert(rows.take(i + 1) =~= prefix.push(rows[i as int]));
                lemma_index_push(prefix, rows[i as int]);
                lemma_index_dom(prefix, row.key());
                if has_key(prefix, row.key()) {
                    let j = choose|j: int|
                        0 <= j < prefix.len() && #[trigger] prefix[j].key() == row.key();
                    assert(rows[j].key() != rows[i as int].key());
                }
                lemma_index_dom(kept@, row.key());
                lemma_index_push(kept@, row);
            }
            if row.user_id != user_id {
                kept.push(row);
            }
            assert(index(kept@) =~= reset_tokens_of_others(index(self.rows@.take(i + 1)), user_id));
            i += 1;
        }
        assert(self.rows@.take(i as int) =~= self.rows@);
        self.rows = kept;
        Ok(())
    }
}

} // verus!

//! Refresh tokens, kept in memory.
//!
//! Rows live in a vector and are found by a linear scan. Ids come from a
//! counter that starts over after its last value. Every token lives for the
//! same number of seconds, fixed when the repository is made; a lifetime that
//! would pass the end of time ends there. No operation fails but to refuse a
//! conflict.

use crate::errors::StoreError;
use crate::models::{RefreshToken, RefreshTokenView};
use crate::repositories::table::{
    distinct_keys, following_id, has_key, index, lemma_index_at, lemma_index_dom, lemma_index_len,
    lemma_index_push, lemma_index_remove, lemma_index_update, lemma_index_witness, Keyed,
};
use crate::repositories::traits::{refresh_tokens_of_others, RefreshTokenRepositoryTrait};
use vstd::prelude::*;

verus! {

/// Refresh tokens in a vector.
pub struct RefreshTokenRepository {
    rows: Vec<RefreshToken>,
    next_id: u128,
    ttl: u64,
}

impl RefreshTokenRepository {
    /// An empty repository whose tokens live for `ttl` seconds.
    pub fn new(ttl: u64) -> (r: Self)
        ensures
            r.inv(),
            r.tokens() == Map::<Seq<char>, RefreshTokenView>::empty(),
            r.ttl() == ttl,
            r.dependable(),
            r.next_id() == 1,
    {
        RefreshTokenRepository { rows: Vec::new(), next_id: 1, ttl }
    }

    /// Seconds for which a token of this repository lives.
    pub closed spec fn ttl(&self) -> u64 {
        self.ttl
    }

    /// When a token made at `now` expires.
    pub open spec fn expiry(&self, now: u64) -> u64 {
        if now + self.ttl() <= u64::MAX {
            (now + self.ttl()) as u64
        } else {
            u64::MAX
        }
    }

    /// Hands out the id for the next row and moves the counter on.
    fn take_id(&mut self) -> (id: u128)
        ensures
            id == old(self).next_id(),
            final(self).next_id() == following_id(id),
            final(self).rows == old(self).rows,
            final(self).ttl == old(self).ttl,
    {
        let id = self.next_id;
        self.next_id = if id == u128::MAX {
            1
        } else {
            id + 1
        };
        id
    }

    /// The id that the next row gets. Rows are numbered from 1 in the order
    /// in which they are made.
    pub closed spec fn next_id(&self) -> u128 {
        self.next_id
    }

    /// When a token made at `now` expires.
    fn expiry_at(&self, now: u64) -> (at: u64)
        ensures
            at == self.expiry(now),
    {
        if now > u64::MAX - self.ttl {
            u64::MAX
        } else {
            now + self.ttl
        }
    }

    /// Number of tokens.
    pub fn len(&self) -> (n: usize)
        requires
            self.inv(),
        ensures
            n == self.tokens().dom().len(),
            self.tokens().dom().finite(),
    {
        proof {
            lemma_index_len(self.rows@);
        }
        self.rows.len()
    }

    /// Number of tokens that belong to `user_id`.
    pub fn count_for_user(&self, user_id: u128) -> (n: usize)
        requires
            self.inv(),
        ensures
            n == self.tokens().dom().len() - refresh_tokens_of_others(
                self.tokens(),
                user_id,
            ).dom().len(),
            n == 0 <==> forall|t: Seq<char>| #[trigger]
                self.tokens().contains_key(t) ==> self.tokens()[t].user_id != user_id,
    {
        let ghost mut others: Seq<RefreshToken> = Seq::empty();
        let mut i: usize = 0;
        let mut n: usize = 0;
        assert(self.rows@.take(0) =~= Seq::<RefreshToken>::empty());
        assert(index(others) =~= refresh_tokens_of_others(index(self.rows@.take(0)), user_id));
        while i < self.rows.len()
            invariant
                i <= self.rows@.len(),
                distinct_keys(self.rows@),
                distinct_keys(others),
                index(others) == refresh_tokens_of_others(
                    index(self.rows@.take(i as int)),
                    user_id,
                ),
                n + others.len() == i,
                n == 0 <==> forall|j: int| 0 <= j < i ==> self.rows@[j].user_id != user_id,
            decreases self.rows@.len() - i,
        {
            proof {
                let rows = self.rows@;
                let row = rows[i as int];
                let prefix = rows.take(i as int);
                assert(rows.take(i + 1) =~= prefix.push(row));
                lemma_index_push(prefix, row);
                lemma_index_dom(prefix, row.key());
                if has_key(prefix, row.key()) {
                    let j = choose|j: int|
                        0 <= j < prefix.len() && #[trigger] prefix[j].key() == row.key();
                    assert(rows[j].key() != rows[i as int].key());
                }
                lemma_index_dom(others, row.key());
                lemma_index_push(others, row);
                if row.user_id != user_id {
                    others = others.push(row);
                }
                assert(index(others) =~= refresh_tokens_of_others(
                    index(rows.take(i + 1)),
                    user_id,
                ));
            }
            if self.rows[i].user_id == user_id {
                n += 1;
            }
            i += 1;
        }
        proof {
            assert(self.rows@.take(i as int) =~= self.rows@);
            lemma_index_len(self.rows@);
            lemma_index_len(others);
            if n == 0 {
                assert forall|t: Seq<char>| #[trigger]
                    self.tokens().contains_key(t) implies self.tokens()[t].user_id
                    != user_id by {
                    let j = lemma_index_witness(self.rows@, t);
                }
            } else {
                let j = choose|j: int| 0 <= j < i && self.rows@[j].user_id == user_id;
                lemma_index_at(self.rows@, j);
                assert(self.tokens().contains_key(self.rows@[j].key()));
            }
        }
        n
    }

    fn position_of(&self, token: &String) -> (r: Option<usize>)
        ensures
            r matches Some(i) ==> i < self.rows@.len() && self.rows@[i as int].token@ == token@,
            r is None ==> !has_key(self.rows@, token@),
    {
        let mut i: usize = 0;
        while i < self.rows.len()
            invariant
                i <= self.rows@.len(),
                forall|j: int| 0 <= j < i ==> self.rows@[j].token@ != token@,
            decreases self.rows@.len() - i,
        {
            if self.rows[i].token == *token {
                return Some(i);
            }
            i += 1;
        }
        None
    }
}

impl RefreshTokenRepositoryTrait for RefreshTokenRepository {
    closed spec fn tokens(&self) -> Map<Seq<char>, RefreshTokenView> {
        index(self.rows@)
    }

    closed spec fn inv(&self) -> bool {
        distinct_keys(self.rows@)
    }

    open spec fn dependable(&self) -> bool {
        true
    }

    proof fn lemma_tokens_wf(&self) {
        let m = self.tokens();
        assert forall|t: Seq<char>| #[trigger] m.contains_key(t) implies m[t].token == t by {
            lemma_index_witness(self.rows@, t);
        }
    }

    fn create_token(&mut self, user_id: u128, token: &str, now: u64) -> (r: Result<
        RefreshToken,
        StoreError,
    >)
        ensures
            r matches Ok(row) ==> row.expires_at == old(self).expiry(now),
            r matches Ok(row) ==> row.id == old(self).next_id(),
            final(self).next_id() == if r is Ok {
                following_id(old(self).next_id())
            } else {
                old(self).next_id()
            },
            final(self).ttl() == old(self).ttl(),
    {
        let token_owned = token.to_owned();
        proof {
            lemma_index_dom(self.rows@, token@);
        }
        match self.position_of(&token_owned) {
            Some(i) => {
                return Err(StoreError::Conflict);
            },
            None => {},
        }
        let id = self.take_id();
        let row = RefreshToken {
            id,
            user_id,
            token: token_owned,
            expires_at: self.expiry_at(now),
            is_used: false,
            used_at: None,
            created_at: now,
            last_used_at: now,
        };
        let result = row.clone();
        proof {
            lemma_index_push(self.rows@, row);
        }
        self.rows.push(row);
        Ok(result)
    }

    fn find_by_token(&self, token: &str) -> (r: Result<Option<RefreshToken>, StoreError>)
    {
        let token_owned = token.to_owned();
        match self.position_of(&token_owned) {
            Some(i) => {
                proof {
                    lemma_index_at(self.rows@, i as int);
                }
                Ok(Some(self.rows[i].clone()))
            },
            None => {
                proof {
                    lemma_index_dom(self.rows@, token@);
                }
                Ok(None)
            },
        }
    }

    fn update_last_used(&mut self, token: &str, now: u64) -> (r: Result<(), StoreError>)
        ensures
            final(self).ttl() == old(self).ttl(),
            final(self).next_id() == old(self).next_id(),
    {
        let token_owned = token.to_owned();
        match self.position_of(&token_owned) {
            Some(i) => {
                let mut row = self.rows[i].clone();
                row.last_used_at = now;
                proof {
                    lemma_index_at(self.rows@, i as int);
                    lemma_index_update(self.rows@, i as int, row);
                }
                self.rows.set(i, row);
            },
            None => {
                proof {
                    lemma_index_dom(self.rows@, token@);
                }
            },
        }
        Ok(())
    }

    fn delete_token(&mut self, token: &str) -> (r: Result<(), StoreError>)
        ensures
            final(self).ttl() == old(self).ttl(),
            final(self).next_id() == old(self).next_id(),
    {
        let token_owned = token.to_owned();
        match self.position_of(&token_owned) {
            Some(i) => {
                proof {
                    lemma_index_remove(self.rows@, i as int);
                }
                self.rows.remove(i);
            },
            None => {
                proof {
                    lemma_index_dom(self.rows@, token@);
                    assert(self.tokens().remove(token@) =~= self.tokens());
                }
            },
        }
        Ok(())
    }

    fn delete_all_user_tokens(&mut self, user_id: u128) -> (r: Result<(), StoreError>)
        ensures
            final(self).ttl() == old(self).ttl(),
            final(self).next_id() == old(self).next_id(),
    {
        let mut kept: Vec<RefreshToken> = Vec::new();
        let mut i: usize = 0;
        assert(self.rows@.take(0) =~= Seq::<RefreshToken>::empty());
        assert(index(kept@) =~= refresh_tokens_of_others(index(self.rows@.take(0)), user_id));
        while i < self.rows.len()
            invariant
                i <= self.rows@.len(),
                distinct_keys(self.rows@),
                distinct_keys(kept@),
                index(kept@) == refresh_tokens_of_others(index(self.rows@.take(i as int)), user_id),
            decreases self.rows@.len() - i,
        {
            let row = self.rows[i].clone();
            proof {
                let rows = self.rows@;
                let prefix = rows.take(i as int);
                assert(rows.take(i + 1) =~= prefix.push(rows[i as int]));
                lemma_index_push(prefix, rows[i as int]);
                lemma_index_dom(prefix, row.key());
                if has_key(prefix, row.key()) {
                    let j = choose|j: int|
                        0 <= j < prefix.len() && #[trigger] prefix[j].key() == row.key();
                    assert(rows[j].key() != rows[i as int].key());
                }
                lemma_index_dom(kept@, row.key());
                lemma_index_push(kept@, row);
            }
            if row.user_id != user_id {
                kept.push(row);
            }
            assert(index(kept@) =~= refresh_tokens_of_others(index(self.rows@.take(i + 1)), user_id));
            i += 1;
        }
        assert(self.rows@.take(i as int) =~= self.rows@);
        self.rows = kept;
        Ok(())
    }

    fn mark_token_as_used(&mut self, token: &str, now: u64) -> (r: Result<bool, StoreError>)
        ensures
            final(self).ttl() == old(self).ttl(),
            final(self).next_id() == old(self).next_id(),
    {
        let token_owned = token.to_owned();
        match self.position_of(&token_owned) {
            Some(i) => {
                proof {
                    lemma_index_at(self.rows@, i as int);
                }
                if self.rows[i].is_used {
                    return Ok(false);
                }
                let mut row = self.rows[i].clone();
                row.is_used = true;
                row.used_at = Some(now);
                proof {
                    lemma_index_update(self.rows@, i as int, row);
                }
                self.rows.set(i, row);
                Ok(true)
            },
            None => {
                proof {
                    lemma_index_dom(self.rows@, token@);
                }
                Ok(false)
            },
        }
    }

    fn rotate_token(&mut self, token: &str, replacement: &str, now: u64) -> (r: Result<
        Option<RefreshToken>,
        StoreError,
    >)
        ensures
            r matches Ok(Some(row)) ==> row.expires_at == old(self).expiry(now),
            r matches Ok(Some(row)) ==> row.id == old(self).next_id(),
            final(self).next_id() == if r matches Ok(Some(_)) {
                following_id(old(self).next_id())
            } else {
                old(self).next_id()
            },
            final(self).ttl() == old(self).ttl(),
    {
        let token_owned = token.to_owned();
        let replacement_owned = replacement.to_owned();
        let i = match self.position_of(&token_owned) {
            Some(i) => i,
            None => {
                proof {
                    lemma_index_dom(self.rows@, token@);
                }
                return Ok(None);
            },
        };
        proof {
            lemma_index_at(self.rows@, i as int);
            lemma_index_dom(self.rows@, replacement@);
        }
        if self.rows[i].is_used {
            return Ok(None);
        }
        match self.position_of(&replacement_owned) {
            Some(j) => {
                return Err(StoreError::Conflict);
            },
            None => {},
        }
        let id = self.take_id();
        let mut consumed = self.rows[i].clone();
        consumed.is_used = true;
        consumed.used_at = Some(now);
        let row = RefreshToken {
            id,
            user_id: consumed.user_id,
            token: replacement_owned,
            expires_at: self.expiry_at(now),
            is_used: false,
            used_at: None,
            created_at: now,
            last_used_at: now,
        };
        let result = row.clone();
        proof {
            lemma_index_update(self.rows@, i as int, consumed);
            let marked = self.rows@.update(i as int, consumed);
            lemma_index_push(marked, row);
            assert(!has_key(marked, row.key())) by {
                if has_key(marked, row.key()) {
                    let j = choose|j: int|
                        0 <= j < marked.len() && #[trigger] marked[j].key() == row.key();
                    assert(self.rows@[j].key() == row.key());
                }
            }
        }
        self.rows.set(i, consumed);
        self.rows.push(row);
        Ok(Some(result))
    }
}

} // verus!

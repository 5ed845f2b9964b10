//! Users, kept in memory.
//!
//! Rows live in a vector and are found by a linear scan. Users are numbered
//! in the order in which they come, so a run is repeatable. No operation
//! fails but to refuse a conflict.

use crate::errors::StoreError;
use crate::models::user::{copy_opt_text, opt_text};
use crate::models::{User, UserView};
use crate::repositories::table::{
    distinct_keys, has_key, index, lemma_index_at, lemma_index_dom, lemma_index_push,
    lemma_index_len, lemma_index_update, lemma_index_witness, Keyed,
};
use crate::repositories::traits::{
    email_taken, email_taken_by_other, opt_str, username_taken, username_taken_by_other,
    UserRepositoryTrait,
};
use vstd::prelude::*;

verus! {

/// Users in a vector.
pub struct UserRepository {
    rows: Vec<User>,
}

/// No two users share an email or a username.
pub open spec fn distinct_identities(users: Seq<User>) -> bool {
    forall|i: int, j: int|
        0 <= i < j < users.len() ==> users[i].email@ != users[j].email@ && users[i].username@
            != users[j].username@
}

/// Copies an optional text argument.
fn own_opt(s: Option<&str>) -> (r: Option<String>)
    ensures
        opt_text(r) == opt_str(s),
{
    match s {
        Some(t) => Some(t.to_owned()),
        None => None,
    }
}

impl UserRepository {
    /// An empty repository.
    pub fn new() -> (r: Self)
        ensures
            r.inv(),
            r.users() == Map::<u128, UserView>::empty(),
            r.dependable(),
    {
        UserRepository { rows: Vec::new() }
    }

    /// Number of users.
    pub fn len(&self) -> (n: usize)
        requires
            self.inv(),
        ensures
            n == self.users().dom().len(),
            self.users().dom().finite(),
    {
        proof {
            lemma_index_len(self.rows@);
        }
        self.rows.len()
    }

    fn position_by_id(&self, id: u128) -> (r: Option<usize>)
        ensures
            r matches Some(i) ==> i < self.rows@.len() && self.rows@[i as int].id == id,
            r is None ==> !has_key(self.rows@, id),
    {
        let mut i: usize = 0;
        while i < self.rows.len()
            invariant
                i <= self.rows@.len(),
                forall|j: int| 0 <= j < i ==> self.rows@[j].id != id,
            decreases self.rows@.len() - i,
        {
            if self.rows[i].id == id {
                return Some(i);
            }
            i += 1;
        }
        None
    }

    fn position_by_email(&self, email: &String) -> (r: Option<usize>)
        ensures
            r matches Some(i) ==> i < self.rows@.len() && self.rows@[i as int].email@ == email@,
            r is None ==> forall|j: int| 0 <= j < self.rows@.len() ==> self.rows@[j].email@
                != email@,
    {
        let mut i: usize = 0;
        while i < self.rows.len()
            invariant
                i <= self.rows@.len(),
                forall|j: int| 0 <= j < i ==> self.rows@[j].email@ != email@,
            decreases self.rows@.len() - i,
        {
            if self.rows[i].email == *email {
                return Some(i);
            }
            i += 1;
        }
        None
    }

    fn position_by_username(&self, username: &String) -> (r: Option<usize>)
        ensures
            r matches Some(i) ==> i < self.rows@.len() && self.rows@[i as int].username@
                == username@,
            r is None ==> forall|j: int| 0 <= j < self.rows@.len() ==> self.rows@[j].username@
                != username@,
    {
        let mut i: usize = 0;
        while i < self.rows.len()
            invariant
                i <= self.rows@.len(),
                forall|j: int| 0 <= j < i ==> self.rows@[j].username@ != username@,
            decreases self.rows@.len() - i,
        {
            if self.rows[i].username == *username {
                return Some(i);
            }
            i += 1;
        }
        None
    }

    /// No row has the email: then the email is not taken.
    proof fn lemma_email_free(&self, email: Seq<char>)
        requires
            self.inv(),
            forall|j: int| 0 <= j < self.rows@.len() ==> self.rows@[j].email@ != email,
        ensures
            !email_taken(self.users(), email),
    {
        if email_taken(self.users(), email) {
            let id = choose|id: u128| #[trigger]
                self.users().contains_key(id) && self.users()[id].email == email;
            let i = lemma_index_witness(self.rows@, id);
            assert(self.rows@[i].email@ == email);
        }
    }

    /// No row has the username: then the username is not taken.
    proof fn lemma_username_free(&self, username: Seq<char>)
        requires
            self.inv(),
            forall|j: int| 0 <= j < self.rows@.len() ==> self.rows@[j].username@ != username,
        ensures
            !username_taken(self.users(), username),
    {
        if username_taken(self.users(), username) {
            let id = choose|id: u128| #[trigger]
                self.users().contains_key(id) && self.users()[id].username == username;
            let i = lemma_index_witness(self.rows@, id);
            assert(self.rows@[i].username@ == username);
        }
    }

    /// No row but the one at `i` has the username: then no other user has it.
    proof fn lemma_username_of_none_else(&self, i: int, username: Seq<char>)
        requires
            self.inv(),
            0 <= i < self.rows@.len(),
            forall|j: int| 0 <= j < self.rows@.len() && j != i ==> self.rows@[j].username@
                != username,
        ensures
            !username_taken_by_other(self.users(), username, self.rows@[i].id),
    {
        if username_taken_by_other(self.users(), username, self.rows@[i].id) {
            let other = choose|other: u128| #[trigger]
                self.users().contains_key(other) && other != self.rows@[i].id
                    && self.users()[other].username == username;
            let j = lemma_index_witness(self.rows@, other);
            assert(self.rows@[j].username@ == username);
        }
    }

    /// No row but the one at `i` has the email: then no other user has it.
    proof fn lemma_email_of_none_else(&self, i: int, email: Seq<char>)
        requires
            self.inv(),
            0 <= i < self.rows@.len(),
            forall|j: int| 0 <= j < self.rows@.len() && j != i ==> self.rows@[j].email@ != email,
        ensures
            !email_taken_by_other(self.users(), email, self.rows@[i].id),
    {
        if email_taken_by_other(self.users(), email, self.rows@[i].id) {
            let other = choose|other: u128| #[trigger]
                self.users().contains_key(other) && other != self.rows@[i].id
                    && self.users()[other].email == email;
            let j = lemma_index_witness(self.rows@, other);
            assert(self.rows@[j].email@ == email);
        }
    }

    /// A user replaced by one with the same id, email and username keeps
    /// the identities distinct.
    proof fn lemma_identities_kept(&self, before: UserRepository, i: int)
        requires
            before.inv(),
            0 <= i < before.rows@.len(),
            self.rows@ == before.rows@.update(i, self.rows@[i]),
            self.rows@.len() == before.rows@.len(),
            self.rows@[i].id == before.rows@[i].id,
            self.rows@[i].email@ == before.rows@[i].email@,
            self.rows@[i].username@ == before.rows@[i].username@,
        ensures
            distinct_identities(self.rows@),
            forall|j: int| 0 <= j < self.rows@.len() ==> self.rows@[j].id <= self.rows@.len(),
    {
        assert forall|a: int, b: int| 0 <= a < b < self.rows@.len() implies self.rows@[a].email@
            != self.rows@[b].email@ && self.rows@[a].username@ != self.rows@[b].username@ by {
            assert(before.rows@[a].email@ != before.rows@[b].email@);
        }
        assert forall|j: int| 0 <= j < self.rows@.len() implies self.rows@[j].id
            <= self.rows@.len() by {
            assert(before.rows@[j].id <= before.rows@.len());
        }
    }
}

impl UserRepositoryTrait for UserRepository {
    closed spec fn users(&self) -> Map<u128, UserView> {
        index(self.rows@)
    }

    closed spec fn inv(&self) -> bool {
        &&& distinct_keys(self.rows@)
        &&& distinct_identities(self.rows@)
        &&& forall|i: int| 0 <= i < self.rows@.len() ==> self.rows@[i].id <= self.rows@.len()
    }

    open spec fn dependable(&self) -> bool {
        true
    }

    proof fn lemma_users_wf(&self) {
        let m = self.users();
        assert forall|id: u128| #[trigger] m.contains_key(id) implies m[id].id == id by {
            lemma_index_witness(self.rows@, id);
        }
        assert forall|a: u128, b: u128|
            #![trigger m.contains_key(a), m.contains_key(b)]
            m.contains_key(a) && m.contains_key(b) && a != b implies m[a].email != m[b].email
            && m[a].username != m[b].username by {
            let i = lemma_index_witness(self.rows@, a);
            let j = lemma_index_witness(self.rows@, b);
            if i < j {
                assert(self.rows@[i].email@ != self.rows@[j].email@);
            } else {
                assert(self.rows@[j].email@ != self.rows@[i].email@);
            }
        }
    }

    fn create(&mut self, username: &str, email: &str, password_hash: &str, now: u64) -> (r: Result<
        User,
        StoreError,
    >)
    {
        let email_owned = email.to_owned();
        let username_owned = username.to_owned();
        match self.position_by_email(&email_owned) {
            Some(i) => {
                proof {
                    lemma_index_at(self.rows@, i as int);
                    assert(self.users().contains_key(self.rows@[i as int].id));
                }
                return Err(StoreError::Conflict);
            },
            None => {},
        }
        match self.position_by_username(&username_owned) {
            Some(i) => {
                proof {
                    lemma_index_at(self.rows@, i as int);
                    assert(self.users().contains_key(self.rows@[i as int].id));
                }
                return Err(StoreError::Conflict);
            },
            None => {},
        }
        proof {
            self.lemma_email_free(email@);
            self.lemma_username_free(username@);
        }
        let id = self.rows.len() as u128 + 1;
        let user = User {
            id,
            username: username_owned,
            email: email_owned,
            password_hash: password_hash.to_owned(),
            email_verified: false,
            bio: None,
            image: None,
            created_at: now,
            updated_at: now,
        };
        let result = user.clone();
        proof {
            lemma_index_dom(self.rows@, id);
            lemma_index_push(self.rows@, user);
            assert(!has_key(self.rows@, id)) by {
                if has_key(self.rows@, id) {
                    let i = choose|i: int|
                        0 <= i < self.rows@.len() && #[trigger] self.rows@[i].key() == id;
                    assert(self.rows@[i].id <= self.rows@.len());
                }
            }
        }
        self.rows.push(user);
        proof {
            assert(distinct_identities(self.rows@)) by {
                assert forall|i: int, j: int| 0 <= i < j < self.rows@.len() implies self.rows@[i].email@
                    != self.rows@[j].email@ && self.rows@[i].username@
                    != self.rows@[j].username@ by {
                    if j < old(self).rows@.len() {
                        assert(old(self).rows@[i].email@ != old(self).rows@[j].email@);
                    } else {
                        assert(old(self).rows@[i].email@ != email@);
                    }
                }
            }
            assert forall|i: int| 0 <= i < self.rows@.len() implies self.rows@[i].id
                <= self.rows@.len() by {
                if i < old(self).rows@.len() {
                    assert(old(self).rows@[i].id <= old(self).rows@.len());
                }
            }
        }
        Ok(result)
    }

    fn find_by_id(&self, user_id: u128) -> (r: Result<Option<User>, StoreError>)
    {
        match self.position_by_id(user_id) {
            Some(i) => {
                proof {
                    lemma_index_at(self.rows@, i as int);
                }
                Ok(Some(self.rows[i].clone()))
            },
            None => {
                proof {
                    lemma_index_dom(self.rows@, user_id);
                }
                Ok(None)
            },
        }
    }

    fn find_by_email(&self, email: &str) -> (r: Result<Option<User>, StoreError>)
    {
        let email_owned = email.to_owned();
        match self.position_by_email(&email_owned) {
            Some(i) => {
                proof {
                    lemma_index_at(self.rows@, i as int);
                    assert(self.users().contains_key(self.rows@[i as int].id));
                }
                Ok(Some(self.rows[i].clone()))
            },
            None => {
                proof {
                    self.lemma_email_free(email@);
                }
                Ok(None)
            },
        }
    }

    fn find_by_username(&self, username: &str) -> (r: Result<Option<User>, StoreError>)
    {
        let username_owned = username.to_owned();
        match self.position_by_username(&username_owned) {
            Some(i) => {
                proof {
                    lemma_index_at(self.rows@, i as int);
                    assert(self.users().contains_key(self.rows@[i as int].id));
                }
                Ok(Some(self.rows[i].clone()))
            },
            None => {
                proof {
                    self.lemma_username_free(username@);
                }
                Ok(None)
            },
        }
    }

    fn update(
        &mut self,
        id: u128,
        username: Option<&str>,
        email: Option<&str>,
        bio: Option<&str>,
        image: Option<&str>,
        now: u64,
    ) -> (r: Result<Option<User>, StoreError>)
    {
        let i = match self.position_by_id(id) {
            Some(i) => i,
            None => {
                proof {
                    lemma_index_dom(self.rows@, id);
                }
                return Ok(None);
            },
        };
        proof {
            lemma_index_at(self.rows@, i as int);
        }
        let new_username = own_opt(username);
        let new_email = own_opt(email);
        if let Some(u) = &new_username {
            match self.position_by_username(u) {
                Some(j) => {
                    if j != i {
                        proof {
                            lemma_index_at(self.rows@, j as int);
                            let other = self.rows@[j as int].id;
                            if i < j {
                                assert(self.rows@[i as int].key() != self.rows@[j as int].key());
                            } else {
                                assert(self.rows@[j as int].key() != self.rows@[i as int].key());
                            }
                            assert(self.users().contains_key(other) && other != id);
                        }
                        return Err(StoreError::Conflict);
                    }
                },
                None => {},
            }
            proof {
                assert forall|j: int| 0 <= j < self.rows@.len() && j != i implies self.rows@[j].username@
                    != u@ by {
                    if self.rows@[i as int].username@ == u@ {
                        if j < i {
                            assert(self.rows@[j].username@ != self.rows@[i as int].username@);
                        } else {
                            assert(self.rows@[i as int].username@ != self.rows@[j].username@);
                        }
                    }
                }
                self.lemma_username_of_none_else(i as int, u@);
            }
        }
        if let Some(e) = &new_email {
            match self.position_by_email(e) {
                Some(j) => {
                    if j != i {
                        proof {
                            lemma_index_at(self.rows@, j as int);
                            let other = self.rows@[j as int].id;
                            if i < j {
                                assert(self.rows@[i as int].key() != self.rows@[j as int].key());
                            } else {
                                assert(self.rows@[j as int].key() != self.rows@[i as int].key());
                            }
                            assert(self.users().contains_key(other) && other != id);
                        }
                        return Err(StoreError::Conflict);
                    }
                },
                None => {},
            }
            proof {
                assert forall|j: int| 0 <= j < self.rows@.len() && j != i implies self.rows@[j].email@
                    != e@ by {
                    if self.rows@[i as int].email@ == e@ {
                        if j < i {
                            assert(self.rows@[j].email@ != self.rows@[i as int].email@);
                        } else {
                            assert(self.rows@[i as int].email@ != self.rows@[j].email@);
                        }
                    }
                }
                self.lemma_email_of_none_else(i as int, e@);
            }
        }
        let current = &self.rows[i];
        let row = User {
            id: current.id,
            username: match new_username {
                Some(u) => u,
                None => current.username.clone(),
            },
            email: match new_email {
                Some(e) => e,
                None => current.email.clone(),
            },
            password_hash: current.password_hash.clone(),
            email_verified: current.email_verified,
            bio: match bio {
                Some(b) => Some(b.to_owned()),
                None => copy_opt_text(&current.bio),
            },
            image: match image {
                Some(m) => Some(m.to_owned()),
                None => copy_opt_text(&current.image),
            },
            created_at: current.created_at,
            updated_at: now,
        };
        let result = row.clone();
        proof {
            lemma_index_update(self.rows@, i as int, row);
        }
        self.rows.set(i, row);
        proof {
            assert(distinct_identities(self.rows@)) by {
                assert forall|a: int, b: int| 0 <= a < b < self.rows@.len() implies self.rows@[a].email@
                    != self.rows@[b].email@ && self.rows@[a].username@
                    != self.rows@[b].username@ by {
                    assert(old(self).rows@[a].email@ != old(self).rows@[b].email@);
                    assert(old(self).rows@[a].username@ != old(self).rows@[b].username@);
                }
            }
        }
        Ok(Some(result))
    }

    fn update_password(&mut self, user_id: u128, new_password_hash: &str, now: u64) -> (r: Result<
        (),
        StoreError,
    >)
    {
        match self.position_by_id(user_id) {
            Some(i) => {
                let current = &self.rows[i];
                let row = User {
                    id: current.id,
                    username: current.username.clone(),
                    email: current.email.clone(),
                    password_hash: new_password_hash.to_owned(),
                    email_verified: current.email_verified,
                    bio: copy_opt_text(&current.bio),
                    image: copy_opt_text(&current.image),
                    created_at: current.created_at,
                    updated_at: now,
                };
                proof {
                    lemma_index_at(self.rows@, i as int);
                    lemma_index_update(self.rows@, i as int, row);
                }
                self.rows.set(i, row);
                proof {
                    self.lemma_identities_kept(*old(self), i as int);
                }
            },
            None => {
                proof {
                    lemma_index_dom(self.rows@, user_id);
                }
            },
        }
        Ok(())
    }

    fn verify_user_email(&mut self, user_id: u128, now: u64) -> (r: Result<(), StoreError>)
    {
        match self.position_by_id(user_id) {
            Some(i) => {
                let current = &self.rows[i];
                let row = User {
                    id: current.id,
                    username: current.username.clone(),
                    email: current.email.clone(),
                    password_hash: current.password_hash.clone(),
                    email_verified: true,
                    bio: copy_opt_text(&current.bio),
                    image: copy_opt_text(&current.image),
                    created_at: current.created_at,
                    updated_at: now,
                };
                proof {
                    lemma_index_at(self.rows@, i as int);
                    lemma_index_update(self.rows@, i as int, row);
                }
                self.rows.set(i, row);
                proof {
                    self.lemma_identities_kept(*old(self), i as int);
                }
            },
            None => {
                proof {
                    lemma_index_dom(self.rows@, user_id);
                }
            },
        }
        Ok(())
    }
}

} // verus!

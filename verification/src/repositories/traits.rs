//! The contract of the credential store.
//!
//! Each repository is read as a map: users by id, each kind of token by its
//! text. Every operation touches one row, or the rows of one user, and says
//! what the map is afterwards. An operation that fails changes nothing.
//! "Not found" is an answer, never a failure.

use crate::errors::StoreError;
use crate::models::{
    EmailVerificationToken, EmailVerificationTokenView, PasswordResetToken,
    PasswordResetTokenView, RefreshToken, RefreshTokenView, User, UserView,
};
use vstd::prelude::*;

verus! {

/// Some user has this email.
pub open spec fn email_taken(users: Map<u128, UserView>, email: Seq<char>) -> bool {
    exists|id: u128| #[trigger] users.contains_key(id) && users[id].email == email
}

/// Some user has this username.
pub open spec fn username_taken(users: Map<u128, UserView>, username: Seq<char>) -> bool {
    exists|id: u128| #[trigger] users.contains_key(id) && users[id].username == username
}

/// Some user other than `id` has this email.
pub open spec fn email_taken_by_other(
    users: Map<u128, UserView>,
    email: Seq<char>,
    id: u128,
) -> bool {
    exists|other: u128|
        #[trigger] users.contains_key(other) && other != id && users[other].email == email
}

/// Some user other than `id` has this username.
pub open spec fn username_taken_by_other(
    users: Map<u128, UserView>,
    username: Seq<char>,
    id: u128,
) -> bool {
    exists|other: u128|
        #[trigger] users.contains_key(other) && other != id && users[other].username == username
}

/// The users after the user `id` has become `changed`, if there is such a
/// user.
pub open spec fn with_user_changed(
    users: Map<u128, UserView>,
    id: u128,
    changed: UserView,
) -> Map<u128, UserView> {
    if users.contains_key(id) {
        users.insert(id, changed)
    } else {
        users
    }
}

/// Every user is kept under its own id, and no two users share an email or
/// a username.
pub open spec fn users_wf(users: Map<u128, UserView>) -> bool {
    &&& forall|id: u128| #[trigger] users.contains_key(id) ==> users[id].id == id
    &&& forall|a: u128, b: u128|
        #![trigger users.contains_key(a), users.contains_key(b)]
        users.contains_key(a) && users.contains_key(b) && a != b ==> {
            &&& users[a].email != users[b].email
            &&& users[a].username != users[b].username
        }
}

/// Every refresh token is kept under its own text.
pub open spec fn refresh_tokens_wf(tokens: Map<Seq<char>, RefreshTokenView>) -> bool {
    forall|t: Seq<char>| #[trigger] tokens.contains_key(t) ==> tokens[t].token == t
}

/// Every verification token is kept under its own text.
pub open spec fn verification_tokens_wf(
    tokens: Map<Seq<char>, EmailVerificationTokenView>,
) -> bool {
    forall|t: Seq<char>| #[trigger] tokens.contains_key(t) ==> tokens[t].token == t
}

/// Every reset token is kept under its own text.
pub open spec fn reset_tokens_wf(tokens: Map<Seq<char>, PasswordResetTokenView>) -> bool {
    forall|t: Seq<char>| #[trigger] tokens.contains_key(t) ==> tokens[t].token == t
}

/// The refresh tokens that do not belong to `user_id`.
pub open spec fn refresh_tokens_of_others(
    tokens: Map<Seq<char>, RefreshTokenView>,
    user_id: u128,
) -> Map<Seq<char>, RefreshTokenView> {
    Map::new(
        |t: Seq<char>| tokens.contains_key(t) && tokens[t].user_id != user_id,
        |t: Seq<char>| tokens[t],
    )
}

/// The reset tokens that do not belong to `user_id`.
pub open spec fn reset_tokens_of_others(
    tokens: Map<Seq<char>, PasswordResetTokenView>,
    user_id: u128,
) -> Map<Seq<char>, PasswordResetTokenView> {
    Map::new(
        |t: Seq<char>| tokens.contains_key(t) && tokens[t].user_id != user_id,
        |t: Seq<char>| tokens[t],
    )
}

/// A user as it is right after registration: not verified, without bio or
/// image.
pub open spec fn new_user(
    id: u128,
    username: Seq<char>,
    email: Seq<char>,
    password_hash: Seq<char>,
    now: u64,
) -> UserView {
    UserView {
        id,
        username,
        email,
        password_hash,
        email_verified: false,
        bio: None,
        image: None,
        created_at: now,
        updated_at: now,
    }
}

/// The user after an update in which an absent field keeps its value.
pub open spec fn updated_user(
    user: UserView,
    username: Option<Seq<char>>,
    email: Option<Seq<char>>,
    bio: Option<Seq<char>>,
    image: Option<Seq<char>>,
    now: u64,
) -> UserView {
    UserView {
        username: match username {
            Some(u) => u,
            None => user.username,
        },
        email: match email {
            Some(e) => e,
            None => user.email,
        },
        bio: match bio {
            Some(b) => Some(b),
            None => user.bio,
        },
        image: match image {
            Some(i) => Some(i),
            None => user.image,
        },
        updated_at: now,
        ..user
    }
}

/// Whether another user holds the username or the email that an update
/// would give to the user `id`.
pub open spec fn update_conflicts(
    users: Map<u128, UserView>,
    id: u128,
    username: Option<Seq<char>>,
    email: Option<Seq<char>>,
) -> bool {
    ||| username matches Some(u) && username_taken_by_other(users, u, id)
    ||| email matches Some(e) && email_taken_by_other(users, e, id)
}

/// A refresh token as it is right after it was made at `now` for `user_id`:
/// unused, and not yet expired. Its id and its lifetime are the store's.
pub open spec fn is_new_refresh_token(
    row: RefreshTokenView,
    user_id: u128,
    token: Seq<char>,
    now: u64,
) -> bool {
    &&& row.user_id == user_id
    &&& row.token == token
    &&& !row.is_used
    &&& row.used_at is None
    &&& row.created_at == now
    &&& row.last_used_at == now
    &&& row.expires_at >= now
}

/// The token is there and has not been consumed.
pub open spec fn is_unused(tokens: Map<Seq<char>, RefreshTokenView>, token: Seq<char>) -> bool {
    tokens.contains_key(token) && !tokens[token].is_used
}

/// Value of an optional text argument.
pub open spec fn opt_str(s: Option<&str>) -> Option<Seq<char>> {
    match s {
        Some(t) => Some(t@),
        None => None,
    }
}

/// Value of an optional row.
pub open spec fn opt_view<R: View>(r: Option<R>) -> Option<R::V> {
    match r {
        Some(row) => Some(row@),
        None => None,
    }
}

/// What is under a key, if anything.
pub open spec fn lookup<K, V>(m: Map<K, V>, k: K) -> Option<V> {
    if m.contains_key(k) {
        Some(m[k])
    } else {
        None
    }
}

/// Users.
pub trait UserRepositoryTrait {
    /// The users, by id.
    spec fn users(&self) -> Map<u128, UserView>;

    /// The repository's own consistency, which every operation needs and
    /// keeps.
    spec fn inv(&self) -> bool;

    /// The repository never fails but to refuse a conflict. One that is
    /// dependable stays so.
    spec fn dependable(&self) -> bool;

    /// A consistent repository holds a well-formed set of users.
    proof fn lemma_users_wf(&self)
        requires
            self.inv(),
        ensures
            users_wf(self.users()),
    ;

    /// Adds a user. Fails with `Conflict` where the email or the username is
    /// taken.
    fn create(&mut self, username: &str, email: &str, password_hash: &str, now: u64) -> (r: Result<
        User,
        StoreError,
    >)
        requires
            old(self).inv(),
        ensures
            final(self).inv(),
            r matches Ok(user) ==> {
                &&& !email_taken(old(self).users(), email@)
                &&& !username_taken(old(self).users(), username@)
                &&& !old(self).users().contains_key(user.id)
                &&& user@ == new_user(user.id, username@, email@, password_hash@, now)
                &&& final(self).users() == old(self).users().insert(user.id, user@)
            },
            r matches Err(e) ==> {
                &&& final(self).users() == old(self).users()
                &&& e == StoreError::Conflict ==> email_taken(old(self).users(), email@)
                    || username_taken(old(self).users(), username@)
            },
            final(self).dependable() == old(self).dependable(),
            old(self).dependable() ==> (r is Err <==> email_taken(old(self).users(), email@)
                || username_taken(old(self).users(), username@)),
            old(self).dependable() ==> (r matches Err(e) ==> e == StoreError::Conflict),
    ;

    /// The user with this id.
    fn find_by_id(&self, user_id: u128) -> (r: Result<Option<User>, StoreError>)
        requires
            self.inv(),
        ensures
            r matches Ok(found) ==> opt_view(found) == lookup(self.users(), user_id),
            self.dependable() ==> r is Ok,
    ;

    /// The user with this email.
    fn find_by_email(&self, email: &str) -> (r: Result<Option<User>, StoreError>)
        requires
            self.inv(),
        ensures
            r matches Ok(Some(user)) ==> {
                &&& lookup(self.users(), user.id) == Some(user@)
                &&& user.email@ == email@
            },
            r matches Ok(None) ==> !email_taken(self.users(), email@),
            self.dependable() ==> r is Ok,
    ;

    /// The user with this username.
    fn find_by_username(&self, username: &str) -> (r: Result<Option<User>, StoreError>)
        requires
            self.inv(),
        ensures
            r matches Ok(Some(user)) ==> {
                &&& lookup(self.users(), user.id) == Some(user@)
                &&& user.username@ == username@
            },
            r matches Ok(None) ==> !username_taken(self.users(), username@),
            self.dependable() ==> r is Ok,
    ;

    /// Changes the fields that are given and hands back the user as it is
    /// then, or nothing where there is no such user. Fails with `Conflict`
    /// where another user has the new email or username.
    fn update(
        &mut self,
        id: u128,
        username: Option<&str>,
        email: Option<&str>,
        bio: Option<&str>,
        image: Option<&str>,
        now: u64,
    ) -> (r: Result<Option<User>, StoreError>)
        requires
            old(self).inv(),
        ensures
            final(self).inv(),
            r matches Ok(Some(user)) ==> {
                &&& old(self).users().contains_key(id)
                &&& user@ == updated_user(
                    old(self).users()[id],
                    opt_str(username),
                    opt_str(email),
                    opt_str(bio),
                    opt_str(image),
                    now,
                )
                &&& final(self).users() == old(self).users().insert(id, user@)
            },
            r matches Ok(None) ==> {
                &&& !old(self).users().contains_key(id)
                &&& final(self).users() == old(self).users()
            },
            r matches Err(e) ==> {
                &&& final(self).users() == old(self).users()
                &&& e == StoreError::Conflict ==> update_conflicts(
                    old(self).users(),
                    id,
                    opt_str(username),
                    opt_str(email),
                )
            },
            final(self).dependable() == old(self).dependable(),
            old(self).dependable() ==> (r is Err <==> old(self).users().contains_key(id)
                && update_conflicts(old(self).users(), id, opt_str(username), opt_str(email))),
            old(self).dependable() ==> (r matches Err(e) ==> e == StoreError::Conflict),
    ;

    /// Replaces the password hash of the user, if there is such a user.
    fn update_password(&mut self, user_id: u128, new_password_hash: &str, now: u64) -> (r: Result<
        (),
        StoreError,
    >)
        requires
            old(self).inv(),
        ensures
            final(self).inv(),
            r is Ok ==> final(self).users() == with_user_changed(
                old(self).users(),
                user_id,
                UserView {
                    password_hash: new_password_hash@,
                    updated_at: now,
                    ..old(self).users()[user_id]
                },
            ),
            r is Err ==> final(self).users() == old(self).users(),
            final(self).dependable() == old(self).dependable(),
            old(self).dependable() ==> r is Ok,
    ;

    /// Marks the email of the user as verified, if there is such a user.
    fn verify_user_email(&mut self, user_id: u128, now: u64) -> (r: Result<(), StoreError>)
        requires
            old(self).inv(),
        ensures
            final(self).inv(),
            r is Ok ==> final(self).users() == with_user_changed(
                old(self).users(),
                user_id,
                UserView { email_verified: true, updated_at: now, ..old(self).users()[user_id] },
            ),
            r is Err ==> final(self).users() == old(self).users(),
            final(self).dependable() == old(self).dependable(),
            old(self).dependable() ==> r is Ok,
    ;
}

/// Email verification tokens.
pub trait EmailVerificationRepositoryTrait {
    /// The tokens, by their text.
    spec fn tokens(&self) -> Map<Seq<char>, EmailVerificationTokenView>;

    /// The repository's own consistency, which every operation needs and
    /// keeps.
    spec fn inv(&self) -> bool;

    /// The repository never fails but to refuse a conflict. One that is
    /// dependable stays so.
    spec fn dependable(&self) -> bool;

    /// A consistent repository keeps every token under its own text.
    proof fn lemma_tokens_wf(&self)
        requires
            self.inv(),
        ensures
            verification_tokens_wf(self.tokens()),
    ;

    /// Adds a token for `user_id`. Fails with `Conflict` where the text is
    /// taken.
    fn create_token(&mut self, user_id: u128, token: &str, expires_at: u64, now: u64) -> (r: Result<
        EmailVerificationToken,
        StoreError,
    >)
        requires
            old(self).inv(),
        ensures
            final(self).inv(),
            r matches Ok(row) ==> {
                &&& !old(self).tokens().contains_key(token@)
                &&& row@ == EmailVerificationTokenView {
                    id: row.id,
                    user_id,
                    token: token@,
                    expires_at,
                    created_at: now,
                }
                &&& final(self).tokens() == old(self).tokens().insert(token@, row@)
            },
            r matches Err(e) ==> {
                &&& final(self).tokens() == old(self).tokens()
                &&& e == StoreError::Conflict ==> old(self).tokens().contains_key(token@)
            },
            final(self).dependable() == old(self).dependable(),
            old(self).dependable() ==> (r is Err <==> old(self).tokens().contains_key(token@)),
            old(self).dependable() ==> (r matches Err(e) ==> e == StoreError::Conflict),
    ;

    /// The token with this text.
    fn find_by_token(&self, token: &str) -> (r: Result<Option<EmailVerificationToken>, StoreError>)
        requires
            self.inv(),
        ensures
            r matches Ok(found) ==> opt_view(found) == lookup(self.tokens(), token@),
            self.dependable() ==> r is Ok,
    ;

    /// Removes the token with this text, if there is one.
    fn delete_token(&mut self, token: &str) -> (r: Result<(), StoreError>)
        requires
            old(self).inv(),
        ensures
            final(self).inv(),
            r is Ok ==> final(self).tokens() == old(self).tokens().remove(token@),
            r is Err ==> final(self).tokens() == old(self).tokens(),
            final(self).dependable() == old(self).dependable(),
            old(self).dependable() ==> r is Ok,
    ;
}

/// Password reset tokens.
pub trait PasswordResetRepositoryTrait {
    /// The tokens, by their text.
    spec fn tokens(&self) -> Map<Seq<char>, PasswordResetTokenView>;

    /// The repository's own consistency, which every operation needs and
    /// keeps.
    spec fn inv(&self) -> bool;

    /// The repository never fails but to refuse a conflict. One that is
    /// dependable stays so.
    spec fn dependable(&self) -> bool;

    /// A consistent repository keeps every token under its own text.
    proof fn lemma_tokens_wf(&self)
        requires
            self.inv(),
        ensures
            reset_tokens_wf(self.tokens()),
    ;

    /// Adds a token for `user_id`. Fails with `Conflict` where the text is
    /// taken.
    fn create_token(&mut self, user_id: u128, token: &str, expires_at: u64, now: u64) -> (r: Result<
        PasswordResetToken,
        StoreError,
    >)
        requires
            old(self).inv(),
        ensures
            final(self).inv(),
            r matches Ok(row) ==> {
                &&& !old(self).tokens().contains_key(token@)
                &&& row@ == PasswordResetTokenView {
                    id: row.id,
                    user_id,
                    token: token@,
                    expires_at,
                    created_at: now,
                }
                &&& final(self).tokens() == old(self).tokens().insert(token@, row@)
            },
            r matches Err(e) ==> {
                &&& final(self).tokens() == old(self).tokens()
                &&& e == StoreError::Conflict ==> old(self).tokens().contains_key(token@)
            },
            final(self).dependable() == old(self).dependable(),
            old(self).dependable() ==> (r is Err <==> old(self).tokens().contains_key(token@)),
            old(self).dependable() ==> (r matches Err(e) ==> e == StoreError::Conflict),
    ;

    /// The token with this text.
    fn find_by_token(&self, token: &str) -> (r: Result<Option<PasswordResetToken>, StoreError>)
        requires
            self.inv(),
        ensures
            r matches Ok(found) ==> opt_view(found) == lookup(self.tokens(), token@),
            self.dependable() ==> r is Ok,
    ;

    /// Removes the token with this text, if there is one.
    fn delete_token(&mut self, token: &str) -> (r: Result<(), StoreError>)
        requires
            old(self).inv(),
        ensures
            final(self).inv(),
            r is Ok ==> final(self).tokens() == old(self).tokens().remove(token@),
            r is Err ==> final(self).tokens() == old(self).tokens(),
            final(self).dependable() == old(self).dependable(),
            old(self).dependable() ==> r is Ok,
    ;

    /// Removes every reset token of the user.
    fn delete_all_user_tokens(&mut self, user_id: u128) -> (r: Result<(), StoreError>)
        requires
            old(self).inv(),
        ensures
            final(self).inv(),
            r is Ok ==> final(self).tokens() == reset_tokens_of_others(
                old(self).tokens(),
                user_id,
            ),
            r is Err ==> final(self).tokens() == old(self).tokens(),
            final(self).dependable() == old(self).dependable(),
            old(self).dependable() ==> r is Ok,
    ;
}

/// Refresh tokens.
pub trait RefreshTokenRepositoryTrait {
    /// The tokens, by their text.
    spec fn tokens(&self) -> Map<Seq<char>, RefreshTokenView>;

    /// The repository's own consistency, which every operation needs and
    /// keeps.
    spec fn inv(&self) -> bool;

    /// The repository never fails but to refuse a conflict. One that is
    /// dependable stays so.
    spec fn dependable(&self) -> bool;

    /// A consistent repository keeps every token under its own text.
    proof fn lemma_tokens_wf(&self)
        requires
            self.inv(),
        ensures
            refresh_tokens_wf(self.tokens()),
    ;

    /// Adds an unused token for `user_id`. Fails with `Conflict` where the
    /// text is taken.
    fn create_token(&mut self, user_id: u128, token: &str, now: u64) -> (r: Result<
        RefreshToken,
        StoreError,
    >)
        requires
            old(self).inv(),
        ensures
            final(self).inv(),
            r matches Ok(row) ==> {
                &&& !old(self).tokens().contains_key(token@)
                &&& is_new_refresh_token(row@, user_id, token@, now)
                &&& final(self).tokens() == old(self).tokens().insert(token@, row@)
            },
            r matches Err(e) ==> {
                &&& final(self).tokens() == old(self).tokens()
                &&& e == StoreError::Conflict ==> old(self).tokens().contains_key(token@)
            },
            final(self).dependable() == old(self).dependable(),
            old(self).dependable() ==> (r is Err <==> old(self).tokens().contains_key(token@)),
            old(self).dependable() ==> (r matches Err(e) ==> e == StoreError::Conflict),
    ;

    /// The token with this text.
    fn find_by_token(&self, token: &str) -> (r: Result<Option<RefreshToken>, StoreError>)
        requires
            self.inv(),
        ensures
            r matches Ok(found) ==> opt_view(found) == lookup(self.tokens(), token@),
            self.dependable() ==> r is Ok,
    ;

    /// Notes that the token was seen at `now`, if there is such a token.
    fn update_last_used(&mut self, token: &str, now: u64) -> (r: Result<(), StoreError>)
        requires
            old(self).inv(),
        ensures
            final(self).inv(),
            r is Ok ==> final(self).tokens() == if old(self).tokens().contains_key(token@) {
                old(self).tokens().insert(
                    token@,
                    RefreshTokenView { last_used_at: now, ..old(self).tokens()[token@] },
                )
            } else {
                old(self).tokens()
            },
            r is Err ==> final(self).tokens() == old(self).tokens(),
            final(self).dependable() == old(self).dependable(),
            old(self).dependable() ==> r is Ok,
    ;

    /// Removes the token with this text, if there is one.
    fn delete_token(&mut self, token: &str) -> (r: Result<(), StoreError>)
        requires
            old(self).inv(),
        ensures
            final(self).inv(),
            r is Ok ==> final(self).tokens() == old(self).tokens().remove(token@),
            r is Err ==> final(self).tokens() == old(self).tokens(),
            final(self).dependable() == old(self).dependable(),
            old(self).dependable() ==> r is Ok,
    ;

    /// Removes every refresh token of the user.
    fn delete_all_user_tokens(&mut self, user_id: u128) -> (r: Result<(), StoreError>)
        requires
            old(self).inv(),
        ensures
            final(self).inv(),
            r is Ok ==> final(self).tokens() == refresh_tokens_of_others(
                old(self).tokens(),
                user_id,
            ),
            r is Err ==> final(self).tokens() == old(self).tokens(),
            final(self).dependable() == old(self).dependable(),
            old(self).dependable() ==> r is Ok,
    ;

    /// Consumes the token if it is there and unused, in one step, and says
    /// whether this call was the one that consumed it. A token that is
    /// missing or already used is left as it is.
    fn mark_token_as_used(&mut self, token: &str, now: u64) -> (r: Result<bool, StoreError>)
        requires
            old(self).inv(),
        ensures
            final(self).inv(),
            r matches Ok(won) ==> {
                &&& won == is_unused(old(self).tokens(), token@)
                &&& final(self).tokens() == if won {
                    old(self).tokens().insert(token@, old(self).tokens()[token@].consumed_at(now))
                } else {
                    old(self).tokens()
                }
            },
            r is Err ==> final(self).tokens() == old(self).tokens(),
            final(self).dependable() == old(self).dependable(),
            old(self).dependable() ==> r is Ok,
    ;

    /// Consumes `token` and adds `replacement` for the same user, both or
    /// neither. Hands back the replacement, or nothing where `token` is
    /// missing or already used. Fails with `Conflict` where the text of the
    /// replacement is taken.
    fn rotate_token(&mut self, token: &str, replacement: &str, now: u64) -> (r: Result<
        Option<RefreshToken>,
        StoreError,
    >)
        requires
            old(self).inv(),
        ensures
            final(self).inv(),
            r matches Ok(Some(row)) ==> {
                &&& is_unused(old(self).tokens(), token@)
                &&& !old(self).tokens().contains_key(replacement@)
                &&& is_new_refresh_token(
                    row@,
                    old(self).tokens()[token@].user_id,
                    replacement@,
                    now,
                )
                &&& final(self).tokens() == old(self).tokens().insert(
                    token@,
                    old(self).tokens()[token@].consumed_at(now),
                ).insert(replacement@, row@)
            },
            r matches Ok(None) ==> {
                &&& !is_unused(old(self).tokens(), token@)
                &&& final(self).tokens() == old(self).tokens()
            },
            r matches Err(e) ==> {
                &&& final(self).tokens() == old(self).tokens()
                &&& e == StoreError::Conflict ==> old(self).tokens().contains_key(replacement@)
            },
            final(self).dependable() == old(self).dependable(),
            old(self).dependable() ==> (r is Err <==> is_unused(old(self).tokens(), token@)
                && old(self).tokens().contains_key(replacement@)),
            old(self).dependable() ==> (r matches Err(e) ==> e == StoreError::Conflict),
    ;
}

} // verus!

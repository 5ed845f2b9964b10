//! The account record.

use vstd::prelude::*;

verus! {

/// An account. `id` is unique; so are `username` and `email`. Times are
/// seconds since the Unix epoch.
#[derive(Debug, PartialEq, Eq)]
pub struct User {
    pub id: u128,
    pub username: String,
    pub email: String,
    pub password_hash: String,
    pub email_verified: bool,
    pub bio: Option<String>,
    pub image: Option<String>,
    pub created_at: u64,
    pub updated_at: u64,
}

/// Mathematical value of a [`User`].
pub struct UserView {
    pub id: u128,
    pub username: Seq<char>,
    pub email: Seq<char>,
    pub password_hash: Seq<char>,
    pub email_verified: bool,
    pub bio: Option<Seq<char>>,
    pub image: Option<Seq<char>>,
    pub created_at: u64,
    pub updated_at: u64,
}

/// Value of an optional string.
pub open spec fn opt_text(s: Option<String>) -> Option<Seq<char>> {
    match s {
        Some(t) => Some(t@),
        None => None,
    }
}

/// Copies an optional string.
pub fn copy_opt_text(s: &Option<String>) -> (r: Option<String>)
    ensures
        r == *s,
{
    match s {
        Some(t) => Some(t.clone()),
        None => None,
    }
}

impl View for User {
    type V = UserView;

    open spec fn view(&self) -> UserView {
        UserView {
            id: self.id,
            username: self.username@,
            email: self.email@,
            password_hash: self.password_hash@,
            email_verified: self.email_verified,
            bio: opt_text(self.bio),
            image: opt_text(self.image),
            created_at: self.created_at,
            updated_at: self.updated_at,
        }
    }
}

impl Clone for User {
    fn clone(&self) -> (r: Self)
        ensures
            r == *self,
    {
        User {
            id: self.id,
            username: self.username.clone(),
            email: self.email.clone(),
            password_hash: self.password_hash.clone(),
            email_verified: self.email_verified,
            bio: copy_opt_text(&self.bio),
            image: copy_opt_text(&self.image),
            created_at: self.created_at,
            updated_at: self.updated_at,
        }
    }
}

} // verus!

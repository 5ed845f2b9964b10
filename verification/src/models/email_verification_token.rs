//! The single-use email verification token.

use crate::clock::unix_now;
use vstd::prelude::*;

verus! {

/// A email verification token row. `token` is unique among its kind. The row
/// is used at most once: presenting it removes it, whatever the outcome.
#[derive(Debug, PartialEq, Eq)]
pub struct EmailVerificationToken {
    pub id: u128,
    pub user_id: u128,
    pub token: String,
    pub expires_at: u64,
    pub created_at: u64,
}

/// Mathematical value of a [`EmailVerificationToken`].
pub struct EmailVerificationTokenView {
    pub id: u128,
    pub user_id: u128,
    pub token: Seq<char>,
    pub expires_at: u64,
    pub created_at: u64,
}

impl EmailVerificationTokenView {
    /// Expired: the clock has passed `expires_at`.
    pub open spec fn is_expired_at(self, now: u64) -> bool {
        now > self.expires_at
    }
}

impl View for EmailVerificationToken {
    type V = EmailVerificationTokenView;

    open spec fn view(&self) -> EmailVerificationTokenView {
        EmailVerificationTokenView {
            id: self.id,
            user_id: self.user_id,
            token: self.token@,
            expires_at: self.expires_at,
            created_at: self.created_at,
        }
    }
}

impl Clone for EmailVerificationToken {
    fn clone(&self) -> (r: Self)
        ensures
            r == *self,
    {
        EmailVerificationToken {
            id: self.id,
            user_id: self.user_id,
            token: self.token.clone(),
            expires_at: self.expires_at,
            created_at: self.created_at,
        }
    }
}

impl EmailVerificationToken {
    /// Whether the token has expired when the clock reads `now`.
    pub fn is_expired_at(&self, now: u64) -> (r: bool)
        ensures
            r == self@.is_expired_at(now),
    {
        now > self.expires_at
    }

    /// Whether the token has expired by the current time.
    pub fn is_expired(&self) -> (r: bool)
        ensures
            exists|now: u64| r == #[trigger] self@.is_expired_at(now),
    {
        let now = unix_now();
        self.is_expired_at(now)
    }
}

} // verus!

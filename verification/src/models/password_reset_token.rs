//! The single-use password reset token.

use crate::clock::unix_now;
use vstd::prelude::*;

verus! {

/// A password reset token row. `token` is unique among its kind. The row
/// is used at most once: presenting it removes it, whatever the outcome.
#[derive(Debug, PartialEq, Eq)]
pub struct PasswordResetToken {
    pub id: u128,
    pub user_id: u128,
    pub token: String,
    pub expires_at: u64,
    pub created_at: u64,
}

/// Mathematical value of a [`PasswordResetToken`].
pub struct PasswordResetTokenView {
    pub id: u128,
    pub user_id: u128,
    pub token: Seq<char>,
    pub expires_at: u64,
    pub created_at: u64,
}

impl PasswordResetTokenView {
    /// Expired: the clock has passed `expires_at`.
    pub open spec fn is_expired_at(self, now: u64) -> bool {
        now > self.expires_at
    }
}

impl View for PasswordResetToken {
    type V = PasswordResetTokenView;

    open spec fn view(&self) -> PasswordResetTokenView {
        PasswordResetTokenView {
            id: self.id,
            user_id: self.user_id,
            token: self.token@,
            expires_at: self.expires_at,
            created_at: self.created_at,
        }
    }
}

impl Clone for PasswordResetToken {
    fn clone(&self) -> (r: Self)
        ensures
            r == *self,
    {
        PasswordResetToken {
            id: self.id,
            user_id: self.user_id,
            token: self.token.clone(),
            expires_at: self.expires_at,
            created_at: self.created_at,
        }
    }
}

impl PasswordResetToken {
    /// Whether the token has expired when the clock reads `now`.
    pub fn is_expired_at(&self, now: u64) -> (r: bool)
        ensures
            r == self@.is_expired_at(now),
    {
        now > self.expires_at
    }

    /// Whether the token has expired by the current time.
    pub fn is_expired(&self) -> (r: bool)
        ensures
            exists|now: u64| r == #[trigger] self@.is_expired_at(now),
    {
        let now = unix_now();
        self.is_expired_at(now)
    }
}

} // verus!

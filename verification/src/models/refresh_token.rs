//! The rotating refresh token.

use crate::clock::unix_now;
use vstd::prelude::*;

verus! {

/// A refresh token row. `token` is the opaque secret handed to the client
/// and is unique among refresh tokens. Once `is_used` is set the row never
/// authenticates a request again.
#[derive(Debug, PartialEq, Eq)]
pub struct RefreshToken {
    pub id: u128,
    pub user_id: u128,
    pub token: String,
    pub expires_at: u64,
    pub is_used: bool,
    pub used_at: Option<u64>,
    pub created_at: u64,
    pub last_used_at: u64,
}

/// Mathematical value of a [`RefreshToken`].
pub struct RefreshTokenView {
    pub id: u128,
    pub user_id: u128,
    pub token: Seq<char>,
    pub expires_at: u64,
    pub is_used: bool,
    pub used_at: Option<u64>,
    pub created_at: u64,
    pub last_used_at: u64,
}

impl RefreshTokenView {
    /// Expired: the clock has passed `expires_at`.
    pub open spec fn is_expired_at(self, now: u64) -> bool {
        now > self.expires_at
    }

    /// Active: neither expired nor consumed.
    pub open spec fn is_valid_at(self, now: u64) -> bool {
        !self.is_expired_at(now) && !self.is_used
    }

    /// The row after it has been consumed at `now`.
    pub open spec fn consumed_at(self, now: u64) -> RefreshTokenView {
        RefreshTokenView { is_used: true, used_at: Some(now), ..self }
    }
}

impl View for RefreshToken {
    type V = RefreshTokenView;

    open spec fn view(&self) -> RefreshTokenView {
        RefreshTokenView {
            id: self.id,
            user_id: self.user_id,
            token: self.token@,
            expires_at: self.expires_at,
            is_used: self.is_used,
            used_at: self.used_at,
            created_at: self.created_at,
            last_used_at: self.last_used_at,
        }
    }
}

impl Clone for RefreshToken {
    fn clone(&self) -> (r: Self)
        ensures
            r == *self,
    {
        RefreshToken {
            id: self.id,
            user_id: self.user_id,
            token: self.token.clone(),
            expires_at: self.expires_at,
            is_used: self.is_used,
            used_at: self.used_at,
            created_at: self.created_at,
            last_used_at: self.last_used_at,
        }
    }
}

impl RefreshToken {
    /// Whether the token has expired when the clock reads `now`.
    pub fn is_expired_at(&self, now: u64) -> (r: bool)
        ensures
            r == self@.is_expired_at(now),
    {
        now > self.expires_at
    }

    /// Whether the token is still usable when the clock reads `now`:
    /// not expired and not consumed.
    pub fn is_valid_at(&self, now: u64) -> (r: bool)
        ensures
            r == self@.is_valid_at(now),
    {
        !self.is_expired_at(now) && !self.is_used
    }

    /// Whether the token has expired by the current time.
    pub fn is_expired(&self) -> (r: bool)
        ensures
            exists|now: u64| r == #[trigger] self@.is_expired_at(now),
    {
        let now = unix_now();
        self.is_expired_at(now)
    }

    /// Whether the token is usable at the current time: not expired and not
    /// consumed.
    pub fn is_valid(&self) -> (r: bool)
        ensures
            exists|now: u64| r == #[trigger] self@.is_valid_at(now),
    {
        let now = unix_now();
        self.is_valid_at(now)
    }
}

} // verus!

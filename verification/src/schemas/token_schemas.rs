//! Bodies of the refresh and logout endpoints.

use vstd::prelude::*;

verus! {

/// Presents a refresh token in exchange for a new pair of tokens.
#[derive(Debug, PartialEq, Eq)]
pub struct RefreshTokenRequest {
    pub refresh_token: String,
}

/// The new pair of tokens.
#[derive(Debug, PartialEq, Eq)]
pub struct RefreshTokenResponse {
    pub access_token: String,
    pub refresh_token: String,
}

/// Presents the refresh token of the session to end.
#[derive(Debug, PartialEq, Eq)]
pub struct LogoutRequest {
    pub refresh_token: String,
}

/// Answer to a [`LogoutRequest`].
#[derive(Debug, PartialEq, Eq)]
pub struct LogoutResponse {
    pub message: String,
}

/// Mathematical value of a [`RefreshTokenResponse`].
pub struct RefreshTokenResponseView {
    pub access_token: Seq<char>,
    pub refresh_token: Seq<char>,
}

impl View for RefreshTokenResponse {
    type V = RefreshTokenResponseView;

    open spec fn view(&self) -> RefreshTokenResponseView {
        RefreshTokenResponseView {
            access_token: self.access_token@,
            refresh_token: self.refresh_token@,
        }
    }
}

} // verus!

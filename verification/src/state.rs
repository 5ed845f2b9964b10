//! What the endpoints work on: the four repositories, the notification
//! gateway and the signing secret.

use crate::models::{
    EmailVerificationTokenView, PasswordResetTokenView, RefreshTokenView, UserView,
};
use crate::repositories::traits::{
    EmailVerificationRepositoryTrait, PasswordResetRepositoryTrait, RefreshTokenRepositoryTrait,
    UserRepositoryTrait,
};
use crate::services::email_service::{Notification, NotificationGateway};
use vstd::prelude::*;

verus! {

/// Everything that outlives a request, as plain values.
pub struct Snapshot {
    pub users: Map<u128, UserView>,
    pub refresh_tokens: Map<Seq<char>, RefreshTokenView>,
    pub verification_tokens: Map<Seq<char>, EmailVerificationTokenView>,
    pub reset_tokens: Map<Seq<char>, PasswordResetTokenView>,
    pub delivered: Seq<Notification>,
    pub jwt_secret: Seq<char>,
    /// No repository fails but to refuse a conflict.
    pub store_dependable: bool,
    /// The gateway accepts every message.
    pub gateway_dependable: bool,
}

/// The collaborators of the endpoints. The signing secret is handed over
/// once, here, and never read from anywhere else.
pub struct AppState<U, E, P, R, N> {
    pub user_repository: U,
    pub email_verification_repository: E,
    pub password_reset_repository: P,
    pub refresh_token_repository: R,
    pub email_service: N,
    pub jwt_secret: String,
}

impl<
    U: UserRepositoryTrait,
    E: EmailVerificationRepositoryTrait,
    P: PasswordResetRepositoryTrait,
    R: RefreshTokenRepositoryTrait,
    N: NotificationGateway,
> AppState<U, E, P, R, N> {
    /// Every repository is consistent.
    pub open spec fn inv(&self) -> bool {
        &&& self.user_repository.inv()
        &&& self.email_verification_repository.inv()
        &&& self.password_reset_repository.inv()
        &&& self.refresh_token_repository.inv()
    }

    /// What the state holds.
    pub open spec fn snapshot(&self) -> Snapshot {
        Snapshot {
            users: self.user_repository.users(),
            refresh_tokens: self.refresh_token_repository.tokens(),
            verification_tokens: self.email_verification_repository.tokens(),
            reset_tokens: self.password_reset_repository.tokens(),
            delivered: self.email_service.delivered(),
            jwt_secret: self.jwt_secret@,
            store_dependable: self.user_repository.dependable()
                && self.email_verification_repository.dependable()
                && self.password_reset_repository.dependable()
                && self.refresh_token_repository.dependable(),
            gateway_dependable: self.email_service.dependable(),
        }
    }

    /// Puts the collaborators together.
    pub fn new(
        user_repository: U,
        email_verification_repository: E,
        password_reset_repository: P,
        refresh_token_repository: R,
        email_service: N,
        jwt_secret: String,
    ) -> (state: Self)
        requires
            user_repository.inv(),
            email_verification_repository.inv(),
            password_reset_repository.inv(),
            refresh_token_repository.inv(),
        ensures
            state.inv(),
            state.user_repository == user_repository,
            state.email_verification_repository == email_verification_repository,
            state.password_reset_repository == password_reset_repository,
            state.refresh_token_repository == refresh_token_repository,
            state.email_service == email_service,
            state.jwt_secret == jwt_secret,
    {
        AppState {
            user_repository,
            email_verification_repository,
            password_reset_repository,
            refresh_token_repository,
            email_service,
            jwt_secret,
        }
    }
}

} // verus!

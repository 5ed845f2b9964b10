//! The endpoints as machines: what to ask of the store or the gateway next,
//! given what came back last.
//!
//! An endpoint never touches the store itself. It hands out one [`Action`] at
//! a time and is told the outcome as an [`Event`]; whoever runs it performs
//! the action, waits where waiting is needed, and hands the event back. The
//! order of the actions, and what is answered when one of them fails, is
//! decided here and nowhere else.

use crate::auth::password::HashingError;
use crate::errors::{AuthError, StoreError};
use crate::models::{EmailVerificationToken, PasswordResetToken, RefreshToken, User};
use crate::auth::jwt::{generate_token_at, is_access_token_for, ACCESS_TOKEN_TTL};
use crate::handlers::auth::{
    check_credentials, classify_refresh, classify_reset, classify_verification,
    credentials_verdict, refresh_verdict, reset_verdict, verification_verdict, RefreshVerdict,
    SingleUseVerdict, EMAIL_VERIFIED_MESSAGE, LOGGED_OUT_MESSAGE, PASSWORD_RESET_MESSAGE,
    RESET_REQUESTED_MESSAGE, RESET_TOKEN_TTL, VERIFICATION_TOKEN_TTL,
};
use crate::repositories::traits::opt_view;
use crate::schemas::auth_schemas::{
    public_view, LoginResponse, LoginResponseView, LoginUserRequest, RegisterUserRequest,
    UserData, VerifyEmailResponse,
};
use crate::schemas::password_reset_schemas::{
    ForgotPasswordRequest, ForgotPasswordResponse, ResetPasswordRequest, ResetPasswordResponse,
};
use crate::schemas::token_schemas::{
    LogoutResponse, RefreshTokenResponse, RefreshTokenResponseView,
};
use crate::services::email_service::DeliveryError;
use vstd::prelude::*;

verus! {

/// What an endpoint asks for next. `Respond` ends the request.
#[derive(Debug, PartialEq, Eq)]
pub enum Action<T> {
    FindUserByEmail { email: String },
    FindUserByUsername { username: String },
    FindUserById { user_id: u128 },
    HashPassword { password: String },
    CreateUser { username: String, email: String, password_hash: String },
    UpdatePassword { user_id: u128, password_hash: String },
    VerifyUserEmail { user_id: u128 },
    CreateVerificationToken { user_id: u128, token: String, expires_at: u64 },
    FindVerificationToken { token: String },
    DeleteVerificationToken { token: String },
    CreateResetToken { user_id: u128, token: String, expires_at: u64 },
    FindResetToken { token: String },
    DeleteResetToken { token: String },
    DeleteAllResetTokens { user_id: u128 },
    CreateRefreshToken { user_id: u128, token: String },
    FindRefreshToken { token: String },
    DeleteRefreshToken { token: String },
    DeleteAllRefreshTokens { user_id: u128 },
    RotateRefreshToken { token: String, replacement: String },
    SendVerificationEmail { to: String, username: String, token: String },
    SendPasswordResetEmail { to: String, username: String, token: String },
    SendSecurityAlert { to: String, username: String },
    Respond(Result<T, AuthError>),
}

/// What came back from the last action. `Started` opens a request.
#[derive(Debug, PartialEq, Eq)]
pub enum Event {
    Started,
    /// Answer to a lookup of a user.
    User(Result<Option<User>, StoreError>),
    /// Answer to `CreateUser`.
    UserCreated(Result<User, StoreError>),
    /// Answer to `HashPassword`.
    Hashed(Result<String, HashingError>),
    /// Answer to `FindVerificationToken`.
    VerificationToken(Result<Option<EmailVerificationToken>, StoreError>),
    /// Answer to `FindResetToken`.
    ResetToken(Result<Option<PasswordResetToken>, StoreError>),
    /// Answer to `FindRefreshToken`.
    RefreshToken(Result<Option<RefreshToken>, StoreError>),
    /// Answer to `RotateRefreshToken`.
    Rotated(Result<Option<RefreshToken>, StoreError>),
    /// Answer to an action that stores, changes or removes rows.
    Stored(Result<(), StoreError>),
    /// Answer to an action that sends a message.
    Sent(Result<(), DeliveryError>),
}

/// The answer that ends a request on a failure of a collaborator, or on an
/// event that does not answer the action that was asked for.
pub open spec fn fails<T>(action: Action<T>) -> bool {
    action == Action::<T>::Respond(Err(AuthError::Internal))
}

/// The outcome of storing something, without what was stored.
pub fn stored<R>(r: Result<R, StoreError>) -> (e: Event)
    ensures
        e == Event::Stored(
            match r {
                Ok(_) => Ok(()),
                Err(err) => Err(err),
            },
        ),
{
    match r {
        Ok(_) => Event::Stored(Ok(())),
        Err(err) => Event::Stored(Err(err)),
    }
}

/// How far a logout has come.
#[derive(Clone, Copy, Debug, PartialEq, Eq, Structural)]
pub enum LogoutStage {
    Start,
    AwaitRemoval,
    Done,
}

/// A logout under way.
#[derive(Debug, PartialEq, Eq)]
pub struct LogoutFlow {
    pub refresh_token: String,
    pub stage: LogoutStage,
}

/// The next step of a logout: remove the presented token, then confirm.
pub open spec fn logout_step_post(
    flow: LogoutFlow,
    event: Event,
    next: LogoutFlow,
    action: Action<LogoutResponse>,
) -> bool {
    match (flow.stage, event) {
        (LogoutStage::Start, Event::Started) => {
            &&& next == (LogoutFlow { stage: LogoutStage::AwaitRemoval, ..flow })
            &&& action == Action::<LogoutResponse>::DeleteRefreshToken {
                token: flow.refresh_token,
            }
        },
        (LogoutStage::AwaitRemoval, Event::Stored(Ok(_))) => {
            &&& next == (LogoutFlow { stage: LogoutStage::Done, ..flow })
            &&& action matches Action::Respond(Ok(response)) && response.message@
                == LOGGED_OUT_MESSAGE@
        },
        _ => next == (LogoutFlow { stage: LogoutStage::Done, ..flow }) && fails(action),
    }
}

impl LogoutFlow {
    /// A logout that has not begun.
    pub fn start(refresh_token: String) -> (flow: Self)
        ensures
            flow == (LogoutFlow { refresh_token, stage: LogoutStage::Start }),
    {
        LogoutFlow { refresh_token, stage: LogoutStage::Start }
    }
}

/// Takes a logout one step further.
pub fn logout_step(flow: LogoutFlow, event: Event) -> (r: (LogoutFlow, Action<LogoutResponse>))
    ensures
        logout_step_post(flow, event, r.0, r.1),
{
    match flow.stage {
        LogoutStage::Start => match event {
            Event::Started => {
                let token = flow.refresh_token.clone();
                (
                    LogoutFlow { stage: LogoutStage::AwaitRemoval, ..flow },
                    Action::DeleteRefreshToken { token },
                )
            },
            _ => (
                LogoutFlow { stage: LogoutStage::Done, ..flow },
                Action::Respond(Err(AuthError::Internal)),
            ),
        },
        LogoutStage::AwaitRemoval => match event {
            Event::Stored(Ok(_)) => (
                LogoutFlow { stage: LogoutStage::Done, ..flow },
                Action::Respond(Ok(LogoutResponse { message: LOGGED_OUT_MESSAGE.to_owned() })),
            ),
            _ => (
                LogoutFlow { stage: LogoutStage::Done, ..flow },
                Action::Respond(Err(AuthError::Internal)),
            ),
        },
        LogoutStage::Done => (flow, Action::Respond(Err(AuthError::Internal))),
    }
}

/// How far an email verification has come.
#[derive(Clone, Copy, Debug, PartialEq, Eq, Structural)]
pub enum VerifyEmailStage {
    Start,
    AwaitToken,
    AwaitRemovalOfExpired,
    AwaitVerified,
    AwaitRemoval,
    Done,
}

/// An email verification under way.
#[derive(Debug, PartialEq, Eq)]
pub struct VerifyEmailFlow {
    pub token: Option<String>,
    pub now: u64,
    pub stage: VerifyEmailStage,
}

/// The next step of an email verification: look the token up; remove an
/// expired one and answer `Gone`; for a valid one mark the user, then remove
/// the token, then confirm.
pub open spec fn verify_email_step_post(
    flow: VerifyEmailFlow,
    event: Event,
    next: VerifyEmailFlow,
    action: Action<VerifyEmailResponse>,
) -> bool {
    let done = VerifyEmailFlow { stage: VerifyEmailStage::Done, ..flow };
    match (flow.stage, event, flow.token) {
        (VerifyEmailStage::Start, Event::Started, None) => next == done && action == Action::<
            VerifyEmailResponse,
        >::Respond(Err(AuthError::Validation)),
        (VerifyEmailStage::Start, Event::Started, Some(token)) => {
            &&& next == (VerifyEmailFlow { stage: VerifyEmailStage::AwaitToken, ..flow })
            &&& action == Action::<VerifyEmailResponse>::FindVerificationToken { token }
        },
        (VerifyEmailStage::AwaitToken, Event::VerificationToken(Ok(found)), Some(token)) => {
            match verification_verdict(opt_view(found), flow.now) {
                SingleUseVerdict::Unknown => next == done && action == Action::<
                    VerifyEmailResponse,
                >::Respond(Err(AuthError::NotFound)),
                SingleUseVerdict::Expired => {
                    &&& next == (VerifyEmailFlow {
                        stage: VerifyEmailStage::AwaitRemovalOfExpired,
                        ..flow
                    })
                    &&& action == Action::<VerifyEmailResponse>::DeleteVerificationToken { token }
                },
                SingleUseVerdict::Valid { user_id } => {
                    &&& next == (VerifyEmailFlow { stage: VerifyEmailStage::AwaitVerified, ..flow })
                    &&& action == Action::<VerifyEmailResponse>::VerifyUserEmail { user_id }
                },
            }
        },
        (VerifyEmailStage::AwaitRemovalOfExpired, Event::Stored(Ok(_)), _) => next == done
            && action == Action::<VerifyEmailResponse>::Respond(Err(AuthError::Gone)),
        (VerifyEmailStage::AwaitVerified, Event::Stored(Ok(_)), Some(token)) => {
            &&& next == (VerifyEmailFlow { stage: VerifyEmailStage::AwaitRemoval, ..flow })
            &&& action == Action::<VerifyEmailResponse>::DeleteVerificationToken { token }
        },
        (VerifyEmailStage::AwaitRemoval, Event::Stored(Ok(_)), _) => {
            &&& next == done
            &&& action matches Action::Respond(Ok(response)) && response.message@
                == EMAIL_VERIFIED_MESSAGE@
        },
        _ => next == done && fails(action),
    }
}

impl VerifyEmailFlow {
    /// An email verification that has not begun.
    pub fn start(token: Option<String>, now: u64) -> (flow: Self)
        ensures
            flow == (VerifyEmailFlow { token, now, stage: VerifyEmailStage::Start }),
    {
        VerifyEmailFlow { token, now, stage: VerifyEmailStage::Start }
    }
}

/// Takes an email verification one step further.
pub fn verify_email_step(flow: VerifyEmailFlow, event: Event) -> (r: (
    VerifyEmailFlow,
    Action<VerifyEmailResponse>,
))
    ensures
        verify_email_step_post(flow, event, r.0, r.1),
{
    let token = match &flow.token {
        Some(t) => t.clone(),
        None => {
            return match (flow.stage, event) {
                (VerifyEmailStage::Start, Event::Started) => (
                    VerifyEmailFlow { stage: VerifyEmailStage::Done, ..flow },
                    Action::Respond(Err(AuthError::Validation)),
                ),
                (VerifyEmailStage::AwaitRemovalOfExpired, Event::Stored(Ok(_))) => (
                    VerifyEmailFlow { stage: VerifyEmailStage::Done, ..flow },
                    Action::Respond(Err(AuthError::Gone)),
                ),
                (VerifyEmailStage::AwaitRemoval, Event::Stored(Ok(_))) => (
                    VerifyEmailFlow { stage: VerifyEmailStage::Done, ..flow },
                    Action::Respond(
                        Ok(VerifyEmailResponse { message: EMAIL_VERIFIED_MESSAGE.to_owned() }),
                    ),
                ),
                _ => (
                    VerifyEmailFlow { stage: VerifyEmailStage::Done, ..flow },
                    Action::Respond(Err(AuthError::Internal)),
                ),
            };
        },
    };
    match (flow.stage, event) {
        (VerifyEmailStage::Start, Event::Started) => (
            VerifyEmailFlow { stage: VerifyEmailStage::AwaitToken, ..flow },
            Action::FindVerificationToken { token },
        ),
        (VerifyEmailStage::AwaitToken, Event::VerificationToken(Ok(found))) => {
            match classify_verification(&found, flow.now) {
                SingleUseVerdict::Unknown => (
                    VerifyEmailFlow { stage: VerifyEmailStage::Done, ..flow },
                    Action::Respond(Err(AuthError::NotFound)),
                ),
                SingleUseVerdict::Expired => (
                    VerifyEmailFlow { stage: VerifyEmailStage::AwaitRemovalOfExpired, ..flow },
                    Action::DeleteVerificationToken { token },
                ),
                SingleUseVerdict::Valid { user_id } => (
                    VerifyEmailFlow { stage: VerifyEmailStage::AwaitVerified, ..flow },
                    Action::VerifyUserEmail { user_id },
                ),
            }
        },
        (VerifyEmailStage::AwaitRemovalOfExpired, Event::Stored(Ok(_))) => (
            VerifyEmailFlow { stage: VerifyEmailStage::Done, ..flow },
            Action::Respond(Err(AuthError::Gone)),
        ),
        (VerifyEmailStage::AwaitVerified, Event::Stored(Ok(_))) => (
            VerifyEmailFlow { stage: VerifyEmailStage::AwaitRemoval, ..flow },
            Action::DeleteVerificationToken { token },
        ),
        (VerifyEmailStage::AwaitRemoval, Event::Stored(Ok(_))) => (
            VerifyEmailFlow { stage: VerifyEmailStage::Done, ..flow },
            Action::Respond(Ok(VerifyEmailResponse { message: EMAIL_VERIFIED_MESSAGE.to_owned() })),
        ),
        _ => (
            VerifyEmailFlow { stage: VerifyEmailStage::Done, ..flow },
            Action::Respond(Err(AuthError::Internal)),
        ),
    }
}

/// How far a request for a reset link has come.
#[derive(Clone, Copy, Debug, PartialEq, Eq, Structural)]
pub enum ForgotPasswordStage {
    Start,
    AwaitUser,
    AwaitToken,
    AwaitDelivery,
    Done,
}

/// A request for a reset link under way.
#[derive(Debug, PartialEq, Eq)]
pub struct ForgotPasswordFlow {
    pub request: ForgotPasswordRequest,
    pub now: u64,
    pub reset_token: String,
    pub stage: ForgotPasswordStage,
    pub user: Option<User>,
}

impl ForgotPasswordFlow {
    /// The expiry of the reset token can be written down.
    pub open spec fn wf(&self) -> bool {
        self.now + RESET_TOKEN_TTL <= u64::MAX
    }

    /// A request for a reset link that has not begun.
    pub fn start(request: ForgotPasswordRequest, now: u64, reset_token: String) -> (flow: Self)
        ensures
            flow == (ForgotPasswordFlow {
                request,
                now,
                reset_token,
                stage: ForgotPasswordStage::Start,
                user: None,
            }),
    {
        ForgotPasswordFlow {
            request,
            now,
            reset_token,
            stage: ForgotPasswordStage::Start,
            user: None,
        }
    }
}

/// The answer to a request for a reset link, whoever asked.
pub open spec fn is_generic_answer(action: Action<ForgotPasswordResponse>) -> bool {
    action matches Action::Respond(Ok(response)) && response.message@ == RESET_REQUESTED_MESSAGE@
}

/// The next step of a request for a reset link: look the user up; answer
/// at once where there is none; else store the token for an hour, then send
/// it, then give the same answer.
pub open spec fn forgot_password_step_post(
    flow: ForgotPasswordFlow,
    event: Event,
    next: ForgotPasswordFlow,
    action: Action<ForgotPasswordResponse>,
) -> bool {
    let done = ForgotPasswordFlow { stage: ForgotPasswordStage::Done, ..flow };
    match (flow.stage, event) {
        (ForgotPasswordStage::Start, Event::Started) => if flow.request.is_valid() {
            &&& next == (ForgotPasswordFlow { stage: ForgotPasswordStage::AwaitUser, ..flow })
            &&& action == Action::<ForgotPasswordResponse>::FindUserByEmail {
                email: flow.request.email,
            }
        } else {
            next == done && action == Action::<ForgotPasswordResponse>::Respond(
                Err(AuthError::Validation),
            )
        },
        (ForgotPasswordStage::AwaitUser, Event::User(Ok(None))) => next == done
            && is_generic_answer(action),
        (ForgotPasswordStage::AwaitUser, Event::User(Ok(Some(user)))) => {
            &&& next == (ForgotPasswordFlow {
                stage: ForgotPasswordStage::AwaitToken,
                user: Some(user),
                ..flow
            })
            &&& action == Action::<ForgotPasswordResponse>::CreateResetToken {
                user_id: user.id,
                token: flow.reset_token,
                expires_at: (flow.now + RESET_TOKEN_TTL) as u64,
            }
        },
        (ForgotPasswordStage::AwaitToken, Event::Stored(Ok(_))) => if flow.user is Some {
            &&& next == (ForgotPasswordFlow { stage: ForgotPasswordStage::AwaitDelivery, ..flow })
            &&& action == Action::<ForgotPasswordResponse>::SendPasswordResetEmail {
                to: flow.user->Some_0.email,
                username: flow.user->Some_0.username,
                token: flow.reset_token,
            }
        } else {
            next == done && fails(action)
        },
        (ForgotPasswordStage::AwaitDelivery, Event::Sent(Ok(_))) => next == done
            && is_generic_answer(action),
        _ => next == done && fails(action),
    }
}

/// Takes a request for a reset link one step further.
pub fn forgot_password_step(flow: ForgotPasswordFlow, event: Event) -> (r: (
    ForgotPasswordFlow,
    Action<ForgotPasswordResponse>,
))
    requires
        flow.wf(),
    ensures
        r.0.wf(),
        forgot_password_step_post(flow, event, r.0, r.1),
{
    match (flow.stage, event) {
        (ForgotPasswordStage::Start, Event::Started) => {
            if flow.request.validate().is_err() {
                return (
                    ForgotPasswordFlow { stage: ForgotPasswordStage::Done, ..flow },
                    Action::Respond(Err(AuthError::Validation)),
                );
            }
            let email = flow.request.email.clone();
            (
                ForgotPasswordFlow { stage: ForgotPasswordStage::AwaitUser, ..flow },
                Action::FindUserByEmail { email },
            )
        },
        (ForgotPasswordStage::AwaitUser, Event::User(Ok(None))) => (
            ForgotPasswordFlow { stage: ForgotPasswordStage::Done, ..flow },
            Action::Respond(
                Ok(ForgotPasswordResponse { message: RESET_REQUESTED_MESSAGE.to_owned() }),
            ),
        ),
        (ForgotPasswordStage::AwaitUser, Event::User(Ok(Some(user)))) => {
            let action = Action::CreateResetToken {
                user_id: user.id,
                token: flow.reset_token.clone(),
                expires_at: flow.now + RESET_TOKEN_TTL,
            };
            (
                ForgotPasswordFlow {
                    stage: ForgotPasswordStage::AwaitToken,
                    user: Some(user),
                    ..flow
                },
                action,
            )
        },
        (ForgotPasswordStage::AwaitToken, Event::Stored(Ok(_))) => {
            let action = match &flow.user {
                Some(user) => Action::SendPasswordResetEmail {
                    to: user.email.clone(),
                    username: user.username.clone(),
                    token: flow.reset_token.clone(),
                },
                None => {
                    return (
                        ForgotPasswordFlow { stage: ForgotPasswordStage::Done, ..flow },
                        Action::Respond(Err(AuthError::Internal)),
                    );
                },
            };
            (ForgotPasswordFlow { stage: ForgotPasswordStage::AwaitDelivery, ..flow }, action)
        },
        (ForgotPasswordStage::AwaitDelivery, Event::Sent(Ok(_))) => (
            ForgotPasswordFlow { stage: ForgotPasswordStage::Done, ..flow },
            Action::Respond(
                Ok(ForgotPasswordResponse { message: RESET_REQUESTED_MESSAGE.to_owned() }),
            ),
        ),
        _ => (
            ForgotPasswordFlow { stage: ForgotPasswordStage::Done, ..flow },
            Action::Respond(Err(AuthError::Internal)),
        ),
    }
}

/// How far a password reset has come.
#[derive(Clone, Copy, Debug, PartialEq, Eq, Structural)]
pub enum ResetPasswordStage {
    Start,
    AwaitToken,
    AwaitRemovalOfExpired,
    AwaitHash,
    AwaitPassword,
    AwaitPurge,
    Done,
}

/// A password reset under way.
#[derive(Debug, PartialEq, Eq)]
pub struct ResetPasswordFlow {
    pub request: ResetPasswordRequest,
    pub now: u64,
    pub stage: ResetPasswordStage,
    pub user_id: Option<u128>,
}

impl ResetPasswordFlow {
    /// A password reset that has not begun.
    pub fn start(request: ResetPasswordRequest, now: u64) -> (flow: Self)
        ensures
            flow == (ResetPasswordFlow {
                request,
                now,
                stage: ResetPasswordStage::Start,
                user_id: None,
            }),
    {
        ResetPasswordFlow { request, now, stage: ResetPasswordStage::Start, user_id: None }
    }
}

/// The next step of a password reset: look the token up; remove an expired
/// one and answer `Gone`; for a valid one have the new password hashed,
/// replace the hash of the user, remove every reset token of the user, then
/// confirm.
pub open spec fn reset_password_step_post(
    flow: ResetPasswordFlow,
    event: Event,
    next: ResetPasswordFlow,
    action: Action<ResetPasswordResponse>,
) -> bool {
    let done = ResetPasswordFlow { stage: ResetPasswordStage::Done, ..flow };
    match (flow.stage, event) {
        (ResetPasswordStage::Start, Event::Started) => if flow.request.is_valid() {
            &&& next == (ResetPasswordFlow { stage: ResetPasswordStage::AwaitToken, ..flow })
            &&& action == Action::<ResetPasswordResponse>::FindResetToken {
                token: flow.request.token,
            }
        } else {
            next == done && action == Action::<ResetPasswordResponse>::Respond(
                Err(AuthError::Validation),
            )
        },
        (ResetPasswordStage::AwaitToken, Event::ResetToken(Ok(found))) => {
            match reset_verdict(opt_view(found), flow.now) {
                SingleUseVerdict::Unknown => next == done && action == Action::<
                    ResetPasswordResponse,
                >::Respond(Err(AuthError::NotFound)),
                SingleUseVerdict::Expired => {
                    &&& next == (ResetPasswordFlow {
                        stage: ResetPasswordStage::AwaitRemovalOfExpired,
                        ..flow
                    })
                    &&& action == Action::<ResetPasswordResponse>::DeleteResetToken {
                        token: flow.request.token,
                    }
                },
                SingleUseVerdict::Valid { user_id } => {
                    &&& next == (ResetPasswordFlow {
                        stage: ResetPasswordStage::AwaitHash,
                        user_id: Some(user_id),
                        ..flow
                    })
                    &&& action == Action::<ResetPasswordResponse>::HashPassword {
                        password: flow.request.new_password,
                    }
                },
            }
        },
        (ResetPasswordStage::AwaitRemovalOfExpired, Event::Stored(Ok(_))) => next == done
            && action == Action::<ResetPasswordResponse>::Respond(Err(AuthError::Gone)),
        (ResetPasswordStage::AwaitHash, Event::Hashed(Ok(password_hash))) => {
            if flow.user_id is Some {
                &&& next == (ResetPasswordFlow { stage: ResetPasswordStage::AwaitPassword, ..flow })
                &&& action == Action::<ResetPasswordResponse>::UpdatePassword {
                    user_id: flow.user_id->Some_0,
                    password_hash,
                }
            } else {
                next == done && fails(action)
            }
        },
        (ResetPasswordStage::AwaitPassword, Event::Stored(Ok(_))) => if flow.user_id is Some {
            &&& next == (ResetPasswordFlow { stage: ResetPasswordStage::AwaitPurge, ..flow })
            &&& action == Action::<ResetPasswordResponse>::DeleteAllResetTokens {
                user_id: flow.user_id->Some_0,
            }
        } else {
            next == done && fails(action)
        },
        (ResetPasswordStage::AwaitPurge, Event::Stored(Ok(_))) => {
            &&& next == done
            &&& action matches Action::Respond(Ok(response)) && response.message@
                == PASSWORD_RESET_MESSAGE@
        },
        _ => next == done && fails(action),
    }
}

/// Takes a password reset one step further.
pub fn reset_password_step(flow: ResetPasswordFlow, event: Event) -> (r: (
    ResetPasswordFlow,
    Action<ResetPasswordResponse>,
))
    ensures
        reset_password_step_post(flow, event, r.0, r.1),
{
    match (flow.stage, event) {
        (ResetPasswordStage::Start, Event::Started) => {
            if flow.request.validate().is_err() {
                return (
                    ResetPasswordFlow { stage: ResetPasswordStage::Done, ..flow },
                    Action::Respond(Err(AuthError::Validation)),
                );
            }
            let token = flow.request.token.clone();
            (
                ResetPasswordFlow { stage: ResetPasswordStage::AwaitToken, ..flow },
                Action::FindResetToken { token },
            )
        },
        (ResetPasswordStage::AwaitToken, Event::ResetToken(Ok(found))) => {
            match classify_reset(&found, flow.now) {
                SingleUseVerdict::Unknown => (
                    ResetPasswordFlow { stage: ResetPasswordStage::Done, ..flow },
                    Action::Respond(Err(AuthError::NotFound)),
                ),
                SingleUseVerdict::Expired => {
                    let token = flow.request.token.clone();
                    (
                        ResetPasswordFlow {
                            stage: ResetPasswordStage::AwaitRemovalOfExpired,
                            ..flow
                        },
                        Action::DeleteResetToken { token },
                    )
                },
                SingleUseVerdict::Valid { user_id } => {
                    let password = flow.request.new_password.clone();
                    (
                        ResetPasswordFlow {
                            stage: ResetPasswordStage::AwaitHash,
                            user_id: Some(user_id),
                            ..flow
                        },
                        Action::HashPassword { password },
                    )
                },
            }
        },
        (ResetPasswordStage::AwaitRemovalOfExpired, Event::Stored(Ok(_))) => (
            ResetPasswordFlow { stage: ResetPasswordStage::Done, ..flow },
            Action::Respond(Err(AuthError::Gone)),
        ),
        (ResetPasswordStage::AwaitHash, Event::Hashed(Ok(password_hash))) => match flow.user_id {
            Some(user_id) => (
                ResetPasswordFlow { stage: ResetPasswordStage::AwaitPassword, ..flow },
                Action::UpdatePassword { user_id, password_hash },
            ),
            None => (
                ResetPasswordFlow { stage: ResetPasswordStage::Done, ..flow },
                Action::Respond(Err(AuthError::Internal)),
            ),
        },
        (ResetPasswordStage::AwaitPassword, Event::Stored(Ok(_))) => match flow.user_id {
            Some(user_id) => (
                ResetPasswordFlow { stage: ResetPasswordStage::AwaitPurge, ..flow },
                Action::DeleteAllResetTokens { user_id },
            ),
            None => (
                ResetPasswordFlow { stage: ResetPasswordStage::Done, ..flow },
                Action::Respond(Err(AuthError::Internal)),
            ),
        },
        (ResetPasswordStage::AwaitPurge, Event::Stored(Ok(_))) => (
            ResetPasswordFlow { stage: ResetPasswordStage::Done, ..flow },
            Action::Respond(Ok(ResetPasswordResponse { message: PASSWORD_RESET_MESSAGE.to_owned() })),
        ),
        _ => (
            ResetPasswordFlow { stage: ResetPasswordStage::Done, ..flow },
            Action::Respond(Err(AuthError::Internal)),
        ),
    }
}

/// How far a login has come.
#[derive(Clone, Copy, Debug, PartialEq, Eq, Structural)]
pub enum LoginStage {
    Start,
    AwaitUser,
    AwaitSession,
    Done,
}

/// A login under way. `user` and `access_token` are filled once the
/// credentials are found good.
#[derive(Debug, PartialEq, Eq)]
pub struct LoginFlow {
    pub request: LoginUserRequest,
    pub now: u64,
    pub refresh_token: String,
    pub jwt_secret: String,
    pub stage: LoginStage,
    pub user: Option<User>,
    pub access_token: Option<String>,
}

impl LoginFlow {
    /// The expiry of the access token can be written down.
    pub open spec fn wf(&self) -> bool {
        self.now + ACCESS_TOKEN_TTL <= u64::MAX
    }

    /// The same login at another stage.
    pub open spec fn at(self, stage: LoginStage) -> LoginFlow {
        LoginFlow { stage, ..self }
    }

    /// A login that has not begun.
    pub fn start(
        request: LoginUserRequest,
        now: u64,
        refresh_token: String,
        jwt_secret: String,
    ) -> (flow: Self)
        ensures
            flow == (LoginFlow {
                request,
                now,
                refresh_token,
                jwt_secret,
                stage: LoginStage::Start,
                user: None,
                access_token: None,
            }),
    {
        LoginFlow {
            request,
            now,
            refresh_token,
            jwt_secret,
            stage: LoginStage::Start,
            user: None,
            access_token: None,
        }
    }
}

/// The next step of a login: look the user up; judge the password against
/// the stored hash; for good credentials issue the access token and store
/// the refresh token; then answer with both.
pub open spec fn login_step_post(
    flow: LoginFlow,
    event: Event,
    next: LoginFlow,
    action: Action<LoginResponse>,
) -> bool {
    let done = flow.at(LoginStage::Done);
    match (flow.stage, event) {
        (LoginStage::Start, Event::Started) => if flow.request.user.is_valid() {
            &&& next == flow.at(LoginStage::AwaitUser)
            &&& action == Action::<LoginResponse>::FindUserByEmail {
                email: flow.request.user.email,
            }
        } else {
            next == done && action == Action::<LoginResponse>::Respond(Err(AuthError::Validation))
        },
        (LoginStage::AwaitUser, Event::User(Ok(found))) => {
            match credentials_verdict(opt_view(found), flow.request.user.password@) {
                Err(e) => next == done && action == Action::<LoginResponse>::Respond(Err(e)),
                Ok(_) => {
                    &&& found is Some
                    &&& next.access_token is Some
                    &&& is_access_token_for(
                        next.access_token->Some_0@,
                        found->Some_0.id,
                        flow.jwt_secret@,
                        flow.now,
                    )
                    &&& next == (LoginFlow {
                        stage: LoginStage::AwaitSession,
                        user: found,
                        access_token: next.access_token,
                        ..flow
                    })
                    &&& action == Action::<LoginResponse>::CreateRefreshToken {
                        user_id: found->Some_0.id,
                        token: flow.refresh_token,
                    }
                },
            }
        },
        (LoginStage::AwaitSession, Event::Stored(Ok(_))) => {
            if flow.user is Some && flow.access_token is Some {
                &&& next == (LoginFlow { stage: LoginStage::Done, user: None, ..flow })
                &&& action matches Action::Respond(Ok(response)) && response@
                    == (LoginResponseView {
                    user: public_view(flow.user->Some_0@),
                    access_token: flow.access_token->Some_0@,
                    refresh_token: flow.refresh_token@,
                })
            } else {
                next == done && fails(action)
            }
        },
        _ => next == done && fails(action),
    }
}

/// Takes a login one step further.
pub fn login_step(flow: LoginFlow, event: Event) -> (r: (LoginFlow, Action<LoginResponse>))
    requires
        flow.wf(),
    ensures
        r.0.wf(),
        login_step_post(flow, event, r.0, r.1),
{
    match (flow.stage, event) {
        (LoginStage::Start, Event::Started) => {
            if flow.request.user.validate().is_err() {
                return (
                    LoginFlow { stage: LoginStage::Done, ..flow },
                    Action::Respond(Err(AuthError::Validation)),
                );
            }
            let email = flow.request.user.email.clone();
            (LoginFlow { stage: LoginStage::AwaitUser, ..flow }, Action::FindUserByEmail { email })
        },
        (LoginStage::AwaitUser, Event::User(Ok(found))) => {
            match check_credentials(&found, flow.request.user.password.as_str()) {
                Err(e) => {
                    return (
                        LoginFlow { stage: LoginStage::Done, ..flow },
                        Action::Respond(Err(e)),
                    );
                },
                Ok(()) => {},
            }
            let user_id = match &found {
                Some(user) => user.id,
                None => {
                    return (
                        LoginFlow { stage: LoginStage::Done, ..flow },
                        Action::Respond(Err(AuthError::Internal)),
                    );
                },
            };
            let access_token = match generate_token_at(
                user_id,
                flow.jwt_secret.as_str(),
                flow.now,
            ) {
                Ok(t) => t,
                Err(_) => {
                    return (
                        LoginFlow { stage: LoginStage::Done, ..flow },
                        Action::Respond(Err(AuthError::Internal)),
                    );
                },
            };
            let action = Action::CreateRefreshToken { user_id, token: flow.refresh_token.clone() };
            (
                LoginFlow {
                    stage: LoginStage::AwaitSession,
                    user: found,
                    access_token: Some(access_token),
                    ..flow
                },
                action,
            )
        },
        (LoginStage::AwaitSession, Event::Stored(Ok(_))) => {
            let LoginFlow { request, now, refresh_token, jwt_secret, stage, user, access_token } =
                flow;
            match (user, access_token) {
                (Some(user), Some(token)) => {
                    let response = LoginResponse {
                        user: UserData::from_user(user),
                        access_token: token.clone(),
                        refresh_token: refresh_token.clone(),
                    };
                    (
                        LoginFlow {
                            request,
                            now,
                            refresh_token,
                            jwt_secret,
                            stage: LoginStage::Done,
                            user: None,
                            access_token: Some(token),
                        },
                        Action::Respond(Ok(response)),
                    )
                },
                (user, access_token) => (
                    LoginFlow {
                        request,
                        now,
                        refresh_token,
                        jwt_secret,
                        stage: LoginStage::Done,
                        user,
                        access_token,
                    },
                    Action::Respond(Err(AuthError::Internal)),
                ),
            }
        },
        _ => (LoginFlow { stage: LoginStage::Done, ..flow }, Action::Respond(Err(AuthError::Internal))),
    }
}

/// How far the answer to a reused refresh token has come.
#[derive(Clone, Copy, Debug, PartialEq, Eq, Structural)]
pub enum RevokeStage {
    Start,
    AwaitPurge,
    AwaitOwner,
    AwaitAlert,
    Done,
}

/// The answer to a reused refresh token under way: every session of the
/// user is being ended.
#[derive(Clone, Copy, Debug, PartialEq, Eq, Structural)]
pub struct RevokeFlow {
    pub user_id: u128,
    pub stage: RevokeStage,
}

/// The next step of ending every session of a user: remove all refresh
/// tokens of the user, look the user up, send the alert, and refuse the
/// request. An alert that cannot be sent changes nothing; a user that the
/// store does not know is a failure.
pub open spec fn revoke_step_post<T>(
    flow: RevokeFlow,
    event: Event,
    next: RevokeFlow,
    action: Action<T>,
) -> bool {
    let done = RevokeFlow { stage: RevokeStage::Done, ..flow };
    match (flow.stage, event) {
        (RevokeStage::Start, Event::Started) => {
            &&& next == (RevokeFlow { stage: RevokeStage::AwaitPurge, ..flow })
            &&& action == Action::<T>::DeleteAllRefreshTokens { user_id: flow.user_id }
        },
        (RevokeStage::AwaitPurge, Event::Stored(Ok(_))) => {
            &&& next == (RevokeFlow { stage: RevokeStage::AwaitOwner, ..flow })
            &&& action == Action::<T>::FindUserById { user_id: flow.user_id }
        },
        (RevokeStage::AwaitOwner, Event::User(Ok(Some(user)))) => {
            &&& next == (RevokeFlow { stage: RevokeStage::AwaitAlert, ..flow })
            &&& action == Action::<T>::SendSecurityAlert {
                to: user.email,
                username: user.username,
            }
        },
        (RevokeStage::AwaitAlert, Event::Sent(_)) => next == done && action == Action::<
            T,
        >::Respond(Err(AuthError::Unauthorized)),
        _ => next == done && fails(action),
    }
}

/// Takes the answer to a reused refresh token one step further.
pub fn revoke_step<T>(flow: RevokeFlow, event: Event) -> (r: (RevokeFlow, Action<T>))
    ensures
        revoke_step_post(flow, event, r.0, r.1),
{
    match (flow.stage, event) {
        (RevokeStage::Start, Event::Started) => (
            RevokeFlow { stage: RevokeStage::AwaitPurge, ..flow },
            Action::DeleteAllRefreshTokens { user_id: flow.user_id },
        ),
        (RevokeStage::AwaitPurge, Event::Stored(Ok(_))) => (
            RevokeFlow { stage: RevokeStage::AwaitOwner, ..flow },
            Action::FindUserById { user_id: flow.user_id },
        ),
        (RevokeStage::AwaitOwner, Event::User(Ok(Some(user)))) => (
            RevokeFlow { stage: RevokeStage::AwaitAlert, ..flow },
            Action::SendSecurityAlert { to: user.email, username: user.username },
        ),
        (RevokeStage::AwaitAlert, Event::Sent(_)) => (
            RevokeFlow { stage: RevokeStage::Done, ..flow },
            Action::Respond(Err(AuthError::Unauthorized)),
        ),
        _ => (RevokeFlow { stage: RevokeStage::Done, ..flow }, Action::Respond(Err(AuthError::Internal))),
    }
}

/// How far a refresh has come.
#[derive(Clone, Copy, Debug, PartialEq, Eq, Structural)]
pub enum RefreshStage {
    Start,
    AwaitToken,
    AwaitRemoval,
    AwaitRotation,
    Revoking,
    Done,
}

/// A refresh under way. `access_token` and `user_id` are filled once the
/// token is found active; `revoke` once it is found reused.
#[derive(Debug, PartialEq, Eq)]
pub struct RefreshFlow {
    pub refresh_token: String,
    pub now: u64,
    pub replacement: String,
    pub jwt_secret: String,
    pub stage: RefreshStage,
    pub user_id: Option<u128>,
    pub access_token: Option<String>,
    pub revoke: Option<RevokeFlow>,
}

impl RefreshFlow {
    /// The expiry of the access token can be written down.
    pub open spec fn wf(&self) -> bool {
        self.now + ACCESS_TOKEN_TTL <= u64::MAX
    }

    /// The same refresh at another stage.
    pub open spec fn at(self, stage: RefreshStage) -> RefreshFlow {
        RefreshFlow { stage, ..self }
    }

    /// The same refresh, now ending every session of `user_id`.
    pub open spec fn revoking(self, user_id: u128) -> RefreshFlow {
        RefreshFlow {
            stage: RefreshStage::Revoking,
            revoke: Some(RevokeFlow { user_id, stage: RevokeStage::AwaitPurge }),
            ..self
        }
    }

    /// A refresh that has not begun.
    pub fn start(refresh_token: String, now: u64, replacement: String, jwt_secret: String) -> (flow:
        Self)
        ensures
            flow == (RefreshFlow {
                refresh_token,
                now,
                replacement,
                jwt_secret,
                stage: RefreshStage::Start,
                user_id: None,
                access_token: None,
                revoke: None,
            }),
    {
        RefreshFlow {
            refresh_token,
            now,
            replacement,
            jwt_secret,
            stage: RefreshStage::Start,
            user_id: None,
            access_token: None,
            revoke: None,
        }
    }
}

/// The next step of a refresh: look the token up; refuse an unknown one;
/// remove an expired one and refuse; answer a consumed one by ending every
/// session of its user; for an active one issue the access token and have
/// the store rotate, and where the store finds the token consumed after all,
/// answer as for a consumed one.
pub open spec fn refresh_step_post(
    flow: RefreshFlow,
    event: Event,
    next: RefreshFlow,
    action: Action<RefreshTokenResponse>,
) -> bool {
    let done = flow.at(RefreshStage::Done);
    let refuse = Action::<RefreshTokenResponse>::Respond(Err(AuthError::Unauthorized));
    match (flow.stage, event) {
        (RefreshStage::Start, Event::Started) => {
            &&& next == flow.at(RefreshStage::AwaitToken)
            &&& action == Action::<RefreshTokenResponse>::FindRefreshToken {
                token: flow.refresh_token,
            }
        },
        (RefreshStage::AwaitToken, Event::RefreshToken(Ok(found))) => {
            match refresh_verdict(opt_view(found), flow.now) {
                RefreshVerdict::Unknown => next == done && action == refuse,
                RefreshVerdict::Expired => {
                    &&& next == flow.at(RefreshStage::AwaitRemoval)
                    &&& action == Action::<RefreshTokenResponse>::DeleteRefreshToken {
                        token: flow.refresh_token,
                    }
                },
                RefreshVerdict::Reused { user_id } => {
                    &&& next == flow.revoking(user_id)
                    &&& action == Action::<RefreshTokenResponse>::DeleteAllRefreshTokens { user_id }
                },
                RefreshVerdict::Active { user_id } => {
                    &&& next.access_token is Some
                    &&& is_access_token_for(
                        next.access_token->Some_0@,
                        user_id,
                        flow.jwt_secret@,
                        flow.now,
                    )
                    &&& next == (RefreshFlow {
                        stage: RefreshStage::AwaitRotation,
                        user_id: Some(user_id),
                        access_token: next.access_token,
                        ..flow
                    })
                    &&& action == Action::<RefreshTokenResponse>::RotateRefreshToken {
                        token: flow.refresh_token,
                        replacement: flow.replacement,
                    }
                },
            }
        },
        (RefreshStage::AwaitRemoval, Event::Stored(_)) => next == done && action == refuse,
        (RefreshStage::AwaitRotation, Event::Rotated(Ok(Some(row)))) => {
            if flow.access_token is Some {
                &&& next == done
                &&& action matches Action::Respond(Ok(response)) && response@
                    == (RefreshTokenResponseView {
                    access_token: flow.access_token->Some_0@,
                    refresh_token: row.token@,
                })
            } else {
                next == done && fails(action)
            }
        },
        (RefreshStage::AwaitRotation, Event::Rotated(Ok(None))) => if flow.user_id is Some {
            &&& next == flow.revoking(flow.user_id->Some_0)
            &&& action == Action::<RefreshTokenResponse>::DeleteAllRefreshTokens {
                user_id: flow.user_id->Some_0,
            }
        } else {
            next == done && fails(action)
        },
        (RefreshStage::Revoking, _) => if flow.revoke is Some {
            &&& next.revoke is Some
            &&& revoke_step_post(flow.revoke->Some_0, event, next.revoke->Some_0, action)
            &&& next == (RefreshFlow {
                stage: if next.revoke->Some_0.stage == RevokeStage::Done {
                    RefreshStage::Done
                } else {
                    RefreshStage::Revoking
                },
                revoke: next.revoke,
                ..flow
            })
        } else {
            next == done && fails(action)
        },
        _ => next == done && fails(action),
    }
}

/// Takes a refresh one step further.
pub fn refresh_step(flow: RefreshFlow, event: Event) -> (r: (
    RefreshFlow,
    Action<RefreshTokenResponse>,
))
    requires
        flow.wf(),
    ensures
        r.0.wf(),
        refresh_step_post(flow, event, r.0, r.1),
{
    match (flow.stage, event) {
        (RefreshStage::Start, Event::Started) => {
            let token = flow.refresh_token.clone();
            (RefreshFlow { stage: RefreshStage::AwaitToken, ..flow }, Action::FindRefreshToken { token })
        },
        (RefreshStage::AwaitToken, Event::RefreshToken(Ok(found))) => {
            match classify_refresh(&found, flow.now) {
                RefreshVerdict::Unknown => (
                    RefreshFlow { stage: RefreshStage::Done, ..flow },
                    Action::Respond(Err(AuthError::Unauthorized)),
                ),
                RefreshVerdict::Expired => {
                    let token = flow.refresh_token.clone();
                    (
                        RefreshFlow { stage: RefreshStage::AwaitRemoval, ..flow },
                        Action::DeleteRefreshToken { token },
                    )
                },
                RefreshVerdict::Reused { user_id } => (
                    RefreshFlow {
                        stage: RefreshStage::Revoking,
                        revoke: Some(RevokeFlow { user_id, stage: RevokeStage::AwaitPurge }),
                        ..flow
                    },
                    Action::DeleteAllRefreshTokens { user_id },
                ),
                RefreshVerdict::Active { user_id } => {
                    let access_token = match generate_token_at(
                        user_id,
                        flow.jwt_secret.as_str(),
                        flow.now,
                    ) {
                        Ok(t) => t,
                        Err(_) => {
                            return (
                                RefreshFlow { stage: RefreshStage::Done, ..flow },
                                Action::Respond(Err(AuthError::Internal)),
                            );
                        },
                    };
                    let action = Action::RotateRefreshToken {
                        token: flow.refresh_token.clone(),
                        replacement: flow.replacement.clone(),
                    };
                    (
                        RefreshFlow {
                            stage: RefreshStage::AwaitRotation,
                            user_id: Some(user_id),
                            access_token: Some(access_token),
                            ..flow
                        },
                        action,
                    )
                },
            }
        },
        (RefreshStage::AwaitRemoval, Event::Stored(_)) => (
            RefreshFlow { stage: RefreshStage::Done, ..flow },
            Action::Respond(Err(AuthError::Unauthorized)),
        ),
        (RefreshStage::AwaitRotation, Event::Rotated(Ok(Some(row)))) => {
            let action = match &flow.access_token {
                Some(token) => Action::Respond(
                    Ok(RefreshTokenResponse { access_token: token.clone(), refresh_token: row.token }),
                ),
                None => Action::Respond(Err(AuthError::Internal)),
            };
            (RefreshFlow { stage: RefreshStage::Done, ..flow }, action)
        },
        (RefreshStage::AwaitRotation, Event::Rotated(Ok(None))) => match flow.user_id {
            Some(user_id) => (
                RefreshFlow {
                    stage: RefreshStage::Revoking,
                    revoke: Some(RevokeFlow { user_id, stage: RevokeStage::AwaitPurge }),
                    ..flow
                },
                Action::DeleteAllRefreshTokens { user_id },
            ),
            None => (
                RefreshFlow { stage: RefreshStage::Done, ..flow },
                Action::Respond(Err(AuthError::Internal)),
            ),
        },
        (RefreshStage::Revoking, event) => match flow.revoke {
            Some(revoke) => {
                let (revoke, action) = revoke_step(revoke, event);
                let stage = match revoke.stage {
                    RevokeStage::Done => RefreshStage::Done,
                    _ => RefreshStage::Revoking,
                };
                (RefreshFlow { stage, revoke: Some(revoke), ..flow }, action)
            },
            None => (
                RefreshFlow { stage: RefreshStage::Done, ..flow },
                Action::Respond(Err(AuthError::Internal)),
            ),
        },
        _ => (
            RefreshFlow { stage: RefreshStage::Done, ..flow },
            Action::Respond(Err(AuthError::Internal)),
        ),
    }
}

/// How far a registration has come.
#[derive(Clone, Copy, Debug, PartialEq, Eq, Structural)]
pub enum RegisterStage {
    Start,
    AwaitEmail,
    AwaitUsername,
    AwaitHash,
    AwaitUser,
    AwaitVerificationToken,
    AwaitDelivery,
    AwaitSession,
    Done,
}

/// A registration under way. `user` is filled once the user is stored,
/// `access_token` once the verification message is delivered.
#[derive(Debug, PartialEq, Eq)]
pub struct RegisterFlow {
    pub request: RegisterUserRequest,
    pub now: u64,
    pub verification_token: String,
    pub refresh_token: String,
    pub jwt_secret: String,
    pub stage: RegisterStage,
    pub user: Option<User>,
    pub access_token: Option<String>,
}

impl RegisterFlow {
    /// The expiry of the verification token can be written down.
    pub open spec fn wf(&self) -> bool {
        self.now + VERIFICATION_TOKEN_TTL <= u64::MAX
    }

    /// The same registration at another stage.
    pub open spec fn at(self, stage: RegisterStage) -> RegisterFlow {
        RegisterFlow { stage, ..self }
    }

    /// A registration that has not begun.
    pub fn start(
        request: RegisterUserRequest,
        now: u64,
        verification_token: String,
        refresh_token: String,
        jwt_secret: String,
    ) -> (flow: Self)
        ensures
            flow == (RegisterFlow {
                request,
                now,
                verification_token,
                refresh_token,
                jwt_secret,
                stage: RegisterStage::Start,
                user: None,
                access_token: None,
            }),
    {
        RegisterFlow {
            request,
            now,
            verification_token,
            refresh_token,
            jwt_secret,
            stage: RegisterStage::Start,
            user: None,
            access_token: None,
        }
    }
}

/// The next step of a registration: check the shape of the request; look
/// for a user with the email, then with the username, and answer `Conflict`
/// where there is one; have the password hashed; store the user; store the
/// verification token for a day; have it delivered; issue the access token
/// and store the refresh token; then answer with both.
pub open spec fn register_step_post(
    flow: RegisterFlow,
    event: Event,
    next: RegisterFlow,
    action: Action<LoginResponse>,
) -> bool {
    let done = flow.at(RegisterStage::Done);
    let conflict = Action::<LoginResponse>::Respond(Err(AuthError::Conflict));
    match (flow.stage, event) {
        (RegisterStage::Start, Event::Started) => if flow.request.user.is_valid() {
            &&& next == flow.at(RegisterStage::AwaitEmail)
            &&& action == Action::<LoginResponse>::FindUserByEmail {
                email: flow.request.user.email,
            }
        } else {
            next == done && action == Action::<LoginResponse>::Respond(Err(AuthError::Validation))
        },
        (RegisterStage::AwaitEmail, Event::User(Ok(Some(_)))) => next == done && action
            == conflict,
        (RegisterStage::AwaitEmail, Event::User(Ok(None))) => {
            &&& next == flow.at(RegisterStage::AwaitUsername)
            &&& action == Action::<LoginResponse>::FindUserByUsername {
                username: flow.request.user.username,
            }
        },
        (RegisterStage::AwaitUsername, Event::User(Ok(Some(_)))) => next == done && action
            == conflict,
        (RegisterStage::AwaitUsername, Event::User(Ok(None))) => {
            &&& next == flow.at(RegisterStage::AwaitHash)
            &&& action == Action::<LoginResponse>::HashPassword {
                password: flow.request.user.password,
            }
        },
        (RegisterStage::AwaitHash, Event::Hashed(Ok(password_hash))) => {
            &&& next == flow.at(RegisterStage::AwaitUser)
            &&& action == Action::<LoginResponse>::CreateUser {
                username: flow.request.user.username,
                email: flow.request.user.email,
                password_hash,
            }
        },
        (RegisterStage::AwaitUser, Event::UserCreated(Err(StoreError::Conflict))) => next == done
            && action == conflict,
        (RegisterStage::AwaitUser, Event::UserCreated(Ok(user))) => {
            &&& next == (RegisterFlow {
                stage: RegisterStage::AwaitVerificationToken,
                user: Some(user),
                ..flow
            })
            &&& action == Action::<LoginResponse>::CreateVerificationToken {
                user_id: user.id,
                token: flow.verification_token,
                expires_at: (flow.now + VERIFICATION_TOKEN_TTL) as u64,
            }
        },
        (RegisterStage::AwaitVerificationToken, Event::Stored(Ok(_))) => if flow.user is Some {
            &&& next == flow.at(RegisterStage::AwaitDelivery)
            &&& action == Action::<LoginResponse>::SendVerificationEmail {
                to: flow.user->Some_0.email,
                username: flow.user->Some_0.username,
                token: flow.verification_token,
            }
        } else {
            next == done && fails(action)
        },
        (RegisterStage::AwaitDelivery, Event::Sent(Ok(_))) => if flow.user is Some {
            &&& next.access_token is Some
            &&& is_access_token_for(
                next.access_token->Some_0@,
                flow.user->Some_0.id,
                flow.jwt_secret@,
                flow.now,
            )
            &&& next == (RegisterFlow {
                stage: RegisterStage::AwaitSession,
                access_token: next.access_token,
                ..flow
            })
            &&& action == Action::<LoginResponse>::CreateRefreshToken {
                user_id: flow.user->Some_0.id,
                token: flow.refresh_token,
            }
        } else {
            next == done && fails(action)
        },
        (RegisterStage::AwaitSession, Event::Stored(Ok(_))) => {
            if flow.user is Some && flow.access_token is Some {
                &&& next == (RegisterFlow { stage: RegisterStage::Done, user: None, ..flow })
                &&& action matches Action::Respond(Ok(response)) && response@
                    == (LoginResponseView {
                    user: public_view(flow.user->Some_0@),
                    access_token: flow.access_token->Some_0@,
                    refresh_token: flow.refresh_token@,
                })
            } else {
                next == done && fails(action)
            }
        },
        _ => next == done && fails(action),
    }
}

/// Takes a registration one step further.
pub fn register_step(flow: RegisterFlow, event: Event) -> (r: (RegisterFlow, Action<LoginResponse>))
    requires
        flow.wf(),
    ensures
        r.0.wf(),
        register_step_post(flow, event, r.0, r.1),
{
    match (flow.stage, event) {
        (RegisterStage::Start, Event::Started) => {
            if flow.request.user.validate().is_err() {
                return (
                    RegisterFlow { stage: RegisterStage::Done, ..flow },
                    Action::Respond(Err(AuthError::Validation)),
                );
            }
            let email = flow.request.user.email.clone();
            (
                RegisterFlow { stage: RegisterStage::AwaitEmail, ..flow },
                Action::FindUserByEmail { email },
            )
        },
        (RegisterStage::AwaitEmail, Event::User(Ok(Some(_)))) => (
            RegisterFlow { stage: RegisterStage::Done, ..flow },
            Action::Respond(Err(AuthError::Conflict)),
        ),
        (RegisterStage::AwaitEmail, Event::User(Ok(None))) => {
            let username = flow.request.user.username.clone();
            (
                RegisterFlow { stage: RegisterStage::AwaitUsername, ..flow },
                Action::FindUserByUsername { username },
            )
        },
        (RegisterStage::AwaitUsername, Event::User(Ok(Some(_)))) => (
            RegisterFlow { stage: RegisterStage::Done, ..flow },
            Action::Respond(Err(AuthError::Conflict)),
        ),
        (RegisterStage::AwaitUsername, Event::User(Ok(None))) => {
            let password = flow.request.user.password.clone();
            (
                RegisterFlow { stage: RegisterStage::AwaitHash, ..flow },
                Action::HashPassword { password },
            )
        },
        (RegisterStage::AwaitHash, Event::Hashed(Ok(password_hash))) => {
            let action = Action::CreateUser {
                username: flow.request.user.username.clone(),
                email: flow.request.user.email.clone(),
                password_hash,
            };
            (RegisterFlow { stage: RegisterStage::AwaitUser, ..flow }, action)
        },
        (RegisterStage::AwaitUser, Event::UserCreated(Err(StoreError::Conflict))) => (
            RegisterFlow { stage: RegisterStage::Done, ..flow },
            Action::Respond(Err(AuthError::Conflict)),
        ),
        (RegisterStage::AwaitUser, Event::UserCreated(Ok(user))) => {
            let action = Action::CreateVerificationToken {
                user_id: user.id,
                token: flow.verification_token.clone(),
                expires_at: flow.now + VERIFICATION_TOKEN_TTL,
            };
            (
                RegisterFlow {
                    stage: RegisterStage::AwaitVerificationToken,
                    user: Some(user),
                    ..flow
                },
                action,
            )
        },
        (RegisterStage::AwaitVerificationToken, Event::Stored(Ok(_))) => {
            let action = match &flow.user {
                Some(user) => Action::SendVerificationEmail {
                    to: user.email.clone(),
                    username: user.username.clone(),
                    token: flow.verification_token.clone(),
                },
                None => {
                    return (
                        RegisterFlow { stage: RegisterStage::Done, ..flow },
                        Action::Respond(Err(AuthError::Internal)),
                    );
                },
            };
            (RegisterFlow { stage: RegisterStage::AwaitDelivery, ..flow }, action)
        },
        (RegisterStage::AwaitDelivery, Event::Sent(Ok(_))) => {
            let user_id = match &flow.user {
                Some(user) => user.id,
                None => {
                    return (
                        RegisterFlow { stage: RegisterStage::Done, ..flow },
                        Action::Respond(Err(AuthError::Internal)),
                    );
                },
            };
            let access_token = match generate_token_at(
                user_id,
                flow.jwt_secret.as_str(),
                flow.now,
            ) {
                Ok(t) => t,
                Err(_) => {
                    return (
                        RegisterFlow { stage: RegisterStage::Done, ..flow },
                        Action::Respond(Err(AuthError::Internal)),
                    );
                },
            };
            let action = Action::CreateRefreshToken { user_id, token: flow.refresh_token.clone() };
            (
                RegisterFlow {
                    stage: RegisterStage::AwaitSession,
                    access_token: Some(access_token),
                    ..flow
                },
                action,
            )
        },
        (RegisterStage::AwaitSession, Event::Stored(Ok(_))) => {
            let RegisterFlow {
                request,
                now,
                verification_token,
                refresh_token,
                jwt_secret,
                stage,
                user,
                access_token,
            } = flow;
            match (user, access_token) {
                (Some(user), Some(token)) => {
                    let response = LoginResponse {
                        user: UserData::from_user(user),
                        access_token: token.clone(),
                        refresh_token: refresh_token.clone(),
                    };
                    (
                        RegisterFlow {
                            request,
                            now,
                            verification_token,
                            refresh_token,
                            jwt_secret,
                            stage: RegisterStage::Done,
                            user: None,
                            access_token: Some(token),
                        },
                        Action::Respond(Ok(response)),
                    )
                },
                (user, access_token) => (
                    RegisterFlow {
                        request,
                        now,
                        verification_token,
                        refresh_token,
                        jwt_secret,
                        stage: RegisterStage::Done,
                        user,
                        access_token,
                    },
                    Action::Respond(Err(AuthError::Internal)),
                ),
            }
        },
        _ => (
            RegisterFlow { stage: RegisterStage::Done, ..flow },
            Action::Respond(Err(AuthError::Internal)),
        ),
    }
}

} // verus!

//! Registration, login, refresh rotation, email verification, password
//! reset and logout.
//!
//! Each endpoint comes twice. The one with the plain name reads the clock
//! and draws the random tokens it needs, then calls its twin, which takes them
//! as arguments and whose contract says what happens for each value of them.
//! Where the password hasher has a say, a third function takes what the hasher
//! answered.
//!
//! None of them decides what to do next: each asks the machine of its
//! endpoint for the next action, performs it on the repositories or the
//! gateway, and hands the outcome back. The contracts here say what that
//! comes to for the state as a whole.

use crate::auth::jwt::{is_access_token_for, ACCESS_TOKEN_TTL};
use crate::auth::password::{
    bcrypt_verdict, hash_password, is_hash_of, verify_password, HashingError,
};
use crate::auth::middleware::RequireAuth;
use crate::auth::tokens::{generate_refresh_token, is_refresh_token_text};
use crate::clock::unix_now;
use crate::errors::AuthError;
use crate::models::{
    EmailVerificationTokenView, PasswordResetTokenView, RefreshToken, RefreshTokenView, User,
    UserView,
};
use crate::repositories::traits::{
    email_taken, is_new_refresh_token, is_unused, lookup, new_user, opt_str, opt_view,
    refresh_tokens_of_others, reset_tokens_of_others, username_taken, with_user_changed,
    EmailVerificationRepositoryTrait, PasswordResetRepositoryTrait, RefreshTokenRepositoryTrait,
    UserRepositoryTrait,
};
use crate::schemas::token_schemas::{
    LogoutRequest, LogoutResponse, RefreshTokenRequest, RefreshTokenResponse,
    RefreshTokenResponseView,
};
use crate::handlers::flow::{
    forgot_password_step, login_step, logout_step, refresh_step, register_step,
    reset_password_step, revoke_step, stored, verify_email_step, Action, Event,
    ForgotPasswordFlow, LoginFlow, LogoutFlow, RefreshFlow, RefreshStage, RegisterFlow,
    RegisterStage, ResetPasswordFlow, ResetPasswordStage, RevokeFlow, RevokeStage,
    VerifyEmailFlow,
};
use crate::models::{EmailVerificationToken, PasswordResetToken};
use crate::schemas::auth_schemas::{
    login_errors, public_view, registration_errors, LoginResponse, LoginResponseView,
    LoginUserRequest, RegisterUserRequest, UserData, UserResponse, VerifyEmailResponse,
};
use crate::schemas::password_reset_schemas::{
    ForgotPasswordRequest, ForgotPasswordResponse, ResetPasswordRequest, ResetPasswordResponse,
};
use crate::validation::email_well_formed;
use crate::services::email_service::{Notification, NotificationGateway};
use crate::state::{AppState, Snapshot};
use crate::utils::token_generator::{generate_verification_token, is_link_token_text};
use vstd::prelude::*;

verus! {

/// Seconds for which an email verification token is accepted.
pub const VERIFICATION_TOKEN_TTL: u64 = 86_400;

/// Seconds for which a password reset token is accepted.
pub const RESET_TOKEN_TTL: u64 = 3_600;

/// Value of the result of an endpoint.
pub open spec fn result_view<T: View>(r: Result<T, AuthError>) -> Result<T::V, AuthError> {
    match r {
        Ok(t) => Ok(t@),
        Err(e) => Err(e),
    }
}

/// The answer that an action ends a request with. An action that asks for
/// more where nothing more can be done ends it as a failure.
pub fn answer<T>(action: Action<T>) -> (r: Result<T, AuthError>)
    ensures
        action matches Action::Respond(a) ==> r == a,
        !(action is Respond) ==> r == Err::<T, AuthError>(AuthError::Internal),
{
    match action {
        Action::Respond(a) => a,
        _ => Err(AuthError::Internal),
    }
}

/// The refusal that an action ends a request with.
pub fn refusal(action: Action<()>) -> (e: AuthError)
    ensures
        action matches Action::Respond(Err(err)) ==> e == err,
        !(action matches Action::Respond(Err(_))) ==> e == AuthError::Internal,
{
    match action {
        Action::Respond(Err(err)) => err,
        _ => AuthError::Internal,
    }
}

/// Copies what a lookup of a refresh token has found.
pub fn copy_found(found: &Option<RefreshToken>) -> (r: Option<RefreshToken>)
    ensures
        r == *found,
{
    match found {
        Some(row) => Some(row.clone()),
        None => None,
    }
}

/// What a registration asks for.
pub struct Registration {
    pub username: Seq<char>,
    pub email: Seq<char>,
    pub password: Seq<char>,
    pub now: u64,
    pub verification_token: Seq<char>,
    pub refresh_token: Seq<char>,
}

impl Registration {
    /// The fields have the right shape.
    pub open spec fn is_valid(self) -> bool {
        registration_errors(self.username, self.email, self.password).len() == 0
    }

    /// The email or the username belongs to a user already.
    pub open spec fn conflicts(self, before: Snapshot) -> bool {
        email_taken(before.users, self.email) || username_taken(before.users, self.username)
    }

    /// The user that the registration creates under `id` with the password
    /// hash `hash`.
    pub open spec fn user(self, id: u128, hash: Seq<char>) -> UserView {
        new_user(id, self.username, self.email, hash, self.now)
    }

    /// The message that carries the verification token.
    pub open spec fn message(self) -> Notification {
        Notification::VerifyEmail {
            to: self.email,
            username: self.username,
            token: self.verification_token,
        }
    }

    /// The verification token of the new user `id` is in `after` and was not
    /// in `before`; it expires a day after the registration.
    pub open spec fn verification_token_added(
        self,
        before: Snapshot,
        after: Snapshot,
        id: u128,
    ) -> bool {
        let t = self.verification_token;
        &&& !before.verification_tokens.contains_key(t)
        &&& after.verification_tokens == before.verification_tokens.insert(
            t,
            after.verification_tokens[t],
        )
        &&& after.verification_tokens[t] == EmailVerificationTokenView {
            id: after.verification_tokens[t].id,
            user_id: id,
            token: t,
            expires_at: (self.now + VERIFICATION_TOKEN_TTL) as u64,
            created_at: self.now,
        }
    }

    /// Everything is stored and sent for the user `id` with the password
    /// hash `hash`: `after` is `before` with the user, its verification token
    /// and its first refresh token; the verification message is delivered;
    /// the response shows the user and carries the refresh token and an
    /// access token for `id`.
    pub open spec fn stored(
        self,
        before: Snapshot,
        after: Snapshot,
        response: LoginResponseView,
        id: u128,
        hash: Seq<char>,
    ) -> bool {
        &&& !self.conflicts(before)
        &&& !before.users.contains_key(id)
        &&& after.users == before.users.insert(id, self.user(id, hash))
        &&& self.verification_token_added(before, after, id)
        &&& !before.refresh_tokens.contains_key(self.refresh_token)
        &&& after.refresh_tokens == before.refresh_tokens.insert(
            self.refresh_token,
            after.refresh_tokens[self.refresh_token],
        )
        &&& is_new_refresh_token(
            after.refresh_tokens[self.refresh_token],
            id,
            self.refresh_token,
            self.now,
        )
        &&& after.delivered == before.delivered.push(self.message())
        &&& response.user == public_view(self.user(id, hash))
        &&& response.refresh_token == self.refresh_token
        &&& is_access_token_for(response.access_token, id, before.jwt_secret, self.now)
    }

    /// The registration went through: the request is well-formed, `hash` is
    /// a hash of its password, and everything is stored and sent.
    pub open spec fn completed(
        self,
        before: Snapshot,
        after: Snapshot,
        response: LoginResponseView,
        id: u128,
        hash: Seq<char>,
    ) -> bool {
        &&& self.is_valid()
        &&& is_hash_of(hash, self.password)
        &&& self.stored(before, after, response, id, hash)
    }

    /// Neither token of the registration is in the store yet.
    pub open spec fn is_fresh(self, before: Snapshot) -> bool {
        &&& !before.verification_tokens.contains_key(self.verification_token)
        &&& !before.refresh_tokens.contains_key(self.refresh_token)
    }

    /// The user was stored with the password hash `hash`, and perhaps the
    /// verification token, and perhaps the message was delivered; no refresh
    /// token was made.
    pub open spec fn partly_stored(self, before: Snapshot, after: Snapshot, hash: Seq<char>) -> bool {
        &&& after.refresh_tokens == before.refresh_tokens
        &&& exists|id: u128|
            {
                &&& !before.users.contains_key(id)
                &&& after.users == before.users.insert(id, #[trigger] self.user(id, hash))
                &&& after.verification_tokens == before.verification_tokens
                    || self.verification_token_added(before, after, id)
                &&& after.delivered == before.delivered || (after.delivered
                    == before.delivered.push(self.message())
                    && self.verification_token_added(before, after, id))
            }
    }

    /// The registration broke off on a failure of the store, the hasher or
    /// the gateway: what was done up to there stays done, and no refresh
    /// token was made.
    pub open spec fn interrupted(self, before: Snapshot, after: Snapshot) -> bool {
        &&& self.is_valid()
        &&& after == before || exists|hash: Seq<char>|
            is_hash_of(hash, self.password) && #[trigger] self.partly_stored(before, after, hash)
    }

    /// What stays as it is whatever happens: the secret, the reset tokens,
    /// and whether store and gateway can be depended on.
    pub open spec fn frame(before: Snapshot, after: Snapshot) -> bool {
        &&& after.jwt_secret == before.jwt_secret
        &&& after.reset_tokens == before.reset_tokens
        &&& after.store_dependable == before.store_dependable
        &&& after.gateway_dependable == before.gateway_dependable
    }

    /// How `after` and the result relate to `before` where the password
    /// hash is `hash`. With a store and a gateway that do not fail, and fresh
    /// tokens, the registration goes through unless the email or the
    /// username is taken.
    pub open spec fn post_with_hash(
        self,
        hash: Seq<char>,
        before: Snapshot,
        after: Snapshot,
        r: Result<LoginResponseView, AuthError>,
    ) -> bool {
        &&& match r {
            Ok(response) => exists|id: u128| #[trigger]
                self.stored(before, after, response, id, hash),
            Err(AuthError::Conflict) => self.conflicts(before) && after == before,
            Err(AuthError::Internal) => after == before || self.partly_stored(before, after, hash),
            Err(_) => false,
        }
        &&& before.store_dependable && self.conflicts(before) ==> r == Err::<
            LoginResponseView,
            AuthError,
        >(AuthError::Conflict)
        &&& before.store_dependable && before.gateway_dependable && !self.conflicts(before)
            && self.is_fresh(before) ==> r is Ok
    }

    /// How `after` and the result relate to `before` once the hasher has
    /// answered with `hashed`. A hasher that failed fails the registration
    /// before anything is done.
    pub open spec fn post_hashed(
        self,
        hashed: Result<Seq<char>, HashingError>,
        before: Snapshot,
        after: Snapshot,
        r: Result<LoginResponseView, AuthError>,
    ) -> bool {
        &&& Self::frame(before, after)
        &&& match hashed {
            Err(_) => r == Err::<LoginResponseView, AuthError>(AuthError::Internal) && after
                == before,
            Ok(hash) => self.post_with_hash(hash, before, after, r),
        }
    }

    /// How `after` and the result relate to `before`.
    pub open spec fn post(
        self,
        before: Snapshot,
        after: Snapshot,
        r: Result<LoginResponseView, AuthError>,
    ) -> bool {
        &&& Self::frame(before, after)
        &&& match r {
            Ok(response) => exists|id: u128, hash: Seq<char>| #[trigger]
                self.completed(before, after, response, id, hash),
            Err(AuthError::Validation) => !self.is_valid() && after == before,
            Err(AuthError::Conflict) => self.is_valid() && self.conflicts(before) && after
                == before,
            Err(AuthError::Internal) => self.interrupted(before, after),
            Err(_) => false,
        }
        &&& !self.is_valid() ==> r == Err::<LoginResponseView, AuthError>(AuthError::Validation)
        &&& self.is_valid() && self.conflicts(before) ==> r is Err
        &&& before.store_dependable ==> self.post_dependable(before, after, r)
    }

    /// What more holds with a store that does not fail: a conflict is
    /// answered as one; and with fresh tokens and a gateway that does not fail
    /// either, the registration goes through unless the hasher fails, and
    /// then nothing is done.
    pub open spec fn post_dependable(
        self,
        before: Snapshot,
        after: Snapshot,
        r: Result<LoginResponseView, AuthError>,
    ) -> bool {
        &&& self.is_valid() && self.conflicts(before) ==> r == Err::<
            LoginResponseView,
            AuthError,
        >(AuthError::Conflict)
        &&& self.is_valid() && !self.conflicts(before) && self.is_fresh(before)
            && before.gateway_dependable ==> r is Ok || (r == Err::<LoginResponseView, AuthError>(
            AuthError::Internal,
        ) && after == before)
    }
}

/// Value of what the hasher answered.
pub open spec fn hashed_view(hashed: Result<String, HashingError>) -> Result<
    Seq<char>,
    HashingError,
> {
    match hashed {
        Ok(h) => Ok(h@),
        Err(e) => Err(e),
    }
}

/// Carries a registration through once the hasher has answered: stores the
/// user with the hash, stores the verification token for a day and has it
/// delivered, then issues an access token and stores the refresh token. The
/// store has the last word on a taken email or username.
pub fn complete_registration<
    U: UserRepositoryTrait,
    E: EmailVerificationRepositoryTrait,
    P: PasswordResetRepositoryTrait,
    R: RefreshTokenRepositoryTrait,
    N: NotificationGateway,
>(
    state: &mut AppState<U, E, P, R, N>,
    payload: RegisterUserRequest,
    hashed: Result<String, HashingError>,
    now: u64,
    verification_token: &str,
    refresh_token: &str,
) -> (r: Result<LoginResponse, AuthError>)
    requires
        old(state).inv(),
        now + VERIFICATION_TOKEN_TTL <= u64::MAX,
    ensures
        final(state).inv(),
        (Registration {
            username: payload.user.username@,
            email: payload.user.email@,
            password: payload.user.password@,
            now,
            verification_token: verification_token@,
            refresh_token: refresh_token@,
        }).post_hashed(
            hashed_view(hashed),
            old(state).snapshot(),
            final(state).snapshot(),
            result_view(r),
        ),
{
    let ghost request = Registration {
        username: payload.user.username@,
        email: payload.user.email@,
        password: payload.user.password@,
        now,
        verification_token: verification_token@,
        refresh_token: refresh_token@,
    };
    let ghost before = state.snapshot();
    let ghost answered = hashed_view(hashed);
    let flow = RegisterFlow {
        request: payload,
        now,
        verification_token: verification_token.to_owned(),
        refresh_token: refresh_token.to_owned(),
        jwt_secret: state.jwt_secret.clone(),
        stage: RegisterStage::AwaitHash,
        user: None,
        access_token: None,
    };
    let (flow, action) = register_step(flow, Event::Hashed(hashed));
    let created = match action {
        Action::CreateUser { username, email, password_hash } => state.user_repository.create(
            username.as_str(),
            email.as_str(),
            password_hash.as_str(),
            now,
        ),
        other => {
            return answer(other);
        },
    };
    let ghost hash = answered->Ok_0;
    let ghost id = created->Ok_0.id;
    let (flow, action) = register_step(flow, Event::UserCreated(created));
    let kept = match action {
        Action::CreateVerificationToken { user_id, token, expires_at } => {
            state.email_verification_repository.create_token(
                user_id,
                token.as_str(),
                expires_at,
                now,
            )
        },
        other => {
            return answer(other);
        },
    };
    assert(state.snapshot().users == before.users.insert(id, request.user(id, hash)));
    let (flow, action) = register_step(flow, stored(kept));
    let sent = match action {
        Action::SendVerificationEmail { to, username, token } => {
            assert(request.verification_token_added(before, state.snapshot(), id));
            state.email_service.send_verification_email(
                to.as_str(),
                username.as_str(),
                token.as_str(),
            )
        },
        other => {
            assert(request.partly_stored(before, state.snapshot(), hash));
            return answer(other);
        },
    };
    let (flow, action) = register_step(flow, Event::Sent(sent));
    let opened = match action {
        Action::CreateRefreshToken { user_id, token } => {
            state.refresh_token_repository.create_token(user_id, token.as_str(), now)
        },
        other => {
            assert(request.partly_stored(before, state.snapshot(), hash));
            return answer(other);
        },
    };
    let (_, action) = register_step(flow, stored(opened));
    let r = answer(action);
    proof {
        if r is Ok {
            assert(request.stored(before, state.snapshot(), r->Ok_0@, id, hash));
        } else {
            assert(request.partly_stored(before, state.snapshot(), hash));
        }
        assert(request.post_with_hash(hash, before, state.snapshot(), result_view(r)));
    }
    r
}

/// Registers a user at `now` with the given fresh tokens: checks the shape
/// of the fields, refuses a taken email or username, hashes the password
/// and carries the registration through with the hash. A delivery that
/// fails fails the registration.
pub fn register_with<
    U: UserRepositoryTrait,
    E: EmailVerificationRepositoryTrait,
    P: PasswordResetRepositoryTrait,
    R: RefreshTokenRepositoryTrait,
    N: NotificationGateway,
>(
    state: &mut AppState<U, E, P, R, N>,
    payload: RegisterUserRequest,
    now: u64,
    verification_token: &str,
    refresh_token: &str,
) -> (r: Result<LoginResponse, AuthError>)
    requires
        old(state).inv(),
        now + VERIFICATION_TOKEN_TTL <= u64::MAX,
    ensures
        final(state).inv(),
        (Registration {
            username: payload.user.username@,
            email: payload.user.email@,
            password: payload.user.password@,
            now,
            verification_token: verification_token@,
            refresh_token: refresh_token@,
        }).post(old(state).snapshot(), final(state).snapshot(), result_view(r)),
{
    let ghost request = Registration {
        username: payload.user.username@,
        email: payload.user.email@,
        password: payload.user.password@,
        now,
        verification_token: verification_token@,
        refresh_token: refresh_token@,
    };
    let ghost before = state.snapshot();
    let flow = RegisterFlow::start(
        payload,
        now,
        verification_token.to_owned(),
        refresh_token.to_owned(),
        state.jwt_secret.clone(),
    );
    let (flow, action) = register_step(flow, Event::Started);
    let by_email = match action {
        Action::FindUserByEmail { email } => state.user_repository.find_by_email(email.as_str()),
        other => {
            return answer(other);
        },
    };
    proof {
        if by_email is Ok && by_email->Ok_0 is Some {
            assert(before.users.contains_key(by_email->Ok_0->Some_0.id));
        }
    }
    let (flow, action) = register_step(flow, Event::User(by_email));
    let by_username = match action {
        Action::FindUserByUsername { username } => state.user_repository.find_by_username(
            username.as_str(),
        ),
        other => {
            return answer(other);
        },
    };
    proof {
        if by_username is Ok && by_username->Ok_0 is Some {
            assert(before.users.contains_key(by_username->Ok_0->Some_0.id));
        }
    }
    let (flow, action) = register_step(flow, Event::User(by_username));
    let hashed = match action {
        Action::HashPassword { password } => hash_password(password.as_str()),
        other => {
            return answer(other);
        },
    };
    let r = complete_registration(
        state,
        flow.request,
        hashed,
        now,
        verification_token,
        refresh_token,
    );
    proof {
        let after = state.snapshot();
        if let Ok(hash) = hashed_view(hashed) {
            assert(is_hash_of(hash, request.password));
            if let Ok(response) = result_view(r) {
                let id = choose|id: u128| #[trigger]
                    request.stored(before, after, response, id, hash);
                assert(request.completed(before, after, response, id, hash));
            }
        }
    }
    r
}

/// Where a presented refresh token stands.
#[derive(Clone, Copy, Debug, PartialEq, Eq, Structural)]
pub enum RefreshVerdict {
    /// The store does not know the token.
    Unknown,
    /// The clock has passed the token's expiry.
    Expired,
    /// The token was consumed before: it leaked, or a client raced itself.
    Reused { user_id: u128 },
    /// The token is neither expired nor consumed.
    Active { user_id: u128 },
}

/// Where the token stands that a lookup has found, or not found, when the
/// clock reads `now`. Expiry is looked at before consumption.
pub open spec fn refresh_verdict(found: Option<RefreshTokenView>, now: u64) -> RefreshVerdict {
    match found {
        None => RefreshVerdict::Unknown,
        Some(t) => if t.is_expired_at(now) {
            RefreshVerdict::Expired
        } else if t.is_used {
            RefreshVerdict::Reused { user_id: t.user_id }
        } else {
            RefreshVerdict::Active { user_id: t.user_id }
        },
    }
}

/// Judges what a lookup of a refresh token has found.
pub fn classify_refresh(found: &Option<RefreshToken>, now: u64) -> (v: RefreshVerdict)
    ensures
        v == refresh_verdict(opt_view(*found), now),
{
    match found {
        None => RefreshVerdict::Unknown,
        Some(t) => {
            if t.is_expired_at(now) {
                RefreshVerdict::Expired
            } else if t.is_used {
                RefreshVerdict::Reused { user_id: t.user_id }
            } else {
                RefreshVerdict::Active { user_id: t.user_id }
            }
        },
    }
}

/// The alert that tells a user that their sessions were ended.
pub open spec fn security_alert(user: UserView) -> Notification {
    Notification::SecurityAlert { to: user.email, username: user.username }
}

/// The answer to a reused refresh token: with `Unauthorized`, every refresh
/// token of the user is gone and the user was alerted, unless the gateway
/// failed; with `Internal`, the store failed, before or after the tokens
/// went, or it does not know the user, and nobody was alerted. Nothing else
/// has changed. With a store that does not fail the tokens are gone in any
/// case.
pub open spec fn sessions_revoked(
    before: Snapshot,
    after: Snapshot,
    user_id: u128,
    e: AuthError,
) -> bool {
    let purged = refresh_tokens_of_others(before.refresh_tokens, user_id);
    let alerted = Snapshot {
        refresh_tokens: purged,
        delivered: before.delivered.push(security_alert(before.users[user_id])),
        ..before
    };
    &&& match e {
        AuthError::Unauthorized => {
            &&& before.users.contains_key(user_id)
            &&& after == (Snapshot { refresh_tokens: purged, ..before }) || after == alerted
        },
        AuthError::Internal => {
            ||| after == before
            ||| after == (Snapshot { refresh_tokens: purged, ..before })
        },
        _ => false,
    }
    &&& before.store_dependable ==> {
        &&& after.refresh_tokens == purged
        &&& e == AuthError::Unauthorized <==> before.users.contains_key(user_id)
        &&& before.gateway_dependable && before.users.contains_key(user_id) ==> after == alerted
    }
}

/// Ends every session of the user after one of their consumed refresh
/// tokens was presented again: removes all their refresh tokens, then
/// alerts them. A failed alert does not change the answer, since the tokens
/// are gone by then.
pub fn revoke_sessions<
    U: UserRepositoryTrait,
    E: EmailVerificationRepositoryTrait,
    P: PasswordResetRepositoryTrait,
    R: RefreshTokenRepositoryTrait,
    N: NotificationGateway,
>(state: &mut AppState<U, E, P, R, N>, user_id: u128) -> (e: AuthError)
    requires
        old(state).inv(),
    ensures
        final(state).inv(),
        sessions_revoked(old(state).snapshot(), final(state).snapshot(), user_id, e),
{
    let flow = RevokeFlow { user_id, stage: RevokeStage::Start };
    let (flow, action) = revoke_step::<()>(flow, Event::Started);
    let purged = match action {
        Action::DeleteAllRefreshTokens { user_id } => {
            state.refresh_token_repository.delete_all_user_tokens(user_id)
        },
        other => {
            return refusal(other);
        },
    };
    let (flow, action) = revoke_step::<()>(flow, Event::Stored(purged));
    let owner = match action {
        Action::FindUserById { user_id } => state.user_repository.find_by_id(user_id),
        other => {
            return refusal(other);
        },
    };
    let (flow, action) = revoke_step::<()>(flow, Event::User(owner));
    let sent = match action {
        Action::SendSecurityAlert { to, username } => state.email_service.send_security_alert(
            to.as_str(),
            username.as_str(),
        ),
        other => {
            return refusal(other);
        },
    };
    let (_, action) = revoke_step::<()>(flow, Event::Sent(sent));
    refusal(action)
}

/// A refresh token presented at `now`, what the lookup found for it, and
/// the fresh token that is to replace it.
pub struct Rotation {
    pub token: Seq<char>,
    pub found: Option<RefreshTokenView>,
    pub now: u64,
    pub replacement: Seq<char>,
}

impl Rotation {
    /// Where the presented token stands.
    pub open spec fn verdict(self) -> RefreshVerdict {
        refresh_verdict(self.found, self.now)
    }

    /// The rotation went through: the presented token was unused in the
    /// store and is consumed now, the replacement is new and belongs to the
    /// same user, and the response carries it with an access token for
    /// `user_id`. Nothing else has changed.
    pub open spec fn rotated(
        self,
        before: Snapshot,
        after: Snapshot,
        response: RefreshTokenResponseView,
        user_id: u128,
    ) -> bool {
        let tokens = before.refresh_tokens;
        &&& is_unused(tokens, self.token)
        &&& !tokens.contains_key(self.replacement)
        &&& after == (Snapshot {
            refresh_tokens: tokens.insert(
                self.token,
                tokens[self.token].consumed_at(self.now),
            ).insert(self.replacement, after.refresh_tokens[self.replacement]),
            ..before
        })
        &&& is_new_refresh_token(
            after.refresh_tokens[self.replacement],
            tokens[self.token].user_id,
            self.replacement,
            self.now,
        )
        &&& response.refresh_token == self.replacement
        &&& is_access_token_for(response.access_token, user_id, before.jwt_secret, self.now)
    }

    /// What a store that does not fail makes of a token that the caller saw
    /// active: it rotates a token that is still unused, unless the text of
    /// the replacement is taken, which changes nothing; and a token that was
    /// consumed in the meantime is answered as a reuse.
    pub open spec fn active_outcome(
        self,
        before: Snapshot,
        after: Snapshot,
        r: Result<RefreshTokenResponseView, AuthError>,
        user_id: u128,
    ) -> bool {
        if !is_unused(before.refresh_tokens, self.token) {
            r is Err && sessions_revoked(before, after, user_id, r->Err_0)
        } else if before.refresh_tokens.contains_key(self.replacement) {
            r == Err::<RefreshTokenResponseView, AuthError>(AuthError::Internal) && after == before
        } else {
            r is Ok
        }
    }

    /// How `after` and the result relate to `before`, by the verdict.
    pub open spec fn post(
        self,
        before: Snapshot,
        after: Snapshot,
        r: Result<RefreshTokenResponseView, AuthError>,
    ) -> bool {
        match self.verdict() {
            RefreshVerdict::Unknown => {
                &&& r == Err::<RefreshTokenResponseView, AuthError>(AuthError::Unauthorized)
                &&& after == before
            },
            RefreshVerdict::Expired => {
                let removed = Snapshot {
                    refresh_tokens: before.refresh_tokens.remove(self.token),
                    ..before
                };
                &&& r == Err::<RefreshTokenResponseView, AuthError>(AuthError::Unauthorized)
                &&& after == before || after == removed
                &&& before.store_dependable ==> after == removed
            },
            RefreshVerdict::Reused { user_id } => {
                &&& r matches Err(e)
                &&& sessions_revoked(before, after, user_id, e)
            },
            RefreshVerdict::Active { user_id } => {
                &&& match r {
                    Ok(response) => self.rotated(before, after, response, user_id),
                    Err(e) => {
                        ||| e == AuthError::Internal && after == before
                        ||| !is_unused(before.refresh_tokens, self.token) && sessions_revoked(
                            before,
                            after,
                            user_id,
                            e,
                        )
                    },
                }
                &&& before.store_dependable ==> self.active_outcome(before, after, r, user_id)
            },
        }
    }
}

/// Acts on a presented refresh token after the lookup: rejects an unknown
/// one; removes and rejects an expired one; answers a consumed one by ending
/// every session of its user; and rotates an active one, consuming it and
/// storing `replacement` in one step of the store. `found` is what the
/// caller saw; the store decides. Where the store finds the token consumed
/// after the caller saw it active, another request came first, and this one
/// is answered as a reuse.
pub fn complete_refresh<
    U: UserRepositoryTrait,
    E: EmailVerificationRepositoryTrait,
    P: PasswordResetRepositoryTrait,
    R: RefreshTokenRepositoryTrait,
    N: NotificationGateway,
>(
    state: &mut AppState<U, E, P, R, N>,
    token: &str,
    found: &Option<RefreshToken>,
    now: u64,
    replacement: &str,
) -> (r: Result<RefreshTokenResponse, AuthError>)
    requires
        old(state).inv(),
        now + ACCESS_TOKEN_TTL <= u64::MAX,
    ensures
        final(state).inv(),
        (Rotation { token: token@, found: opt_view(*found), now, replacement: replacement@ }).post(
            old(state).snapshot(),
            final(state).snapshot(),
            result_view(r),
        ),
{
    let flow = RefreshFlow {
        refresh_token: token.to_owned(),
        now,
        replacement: replacement.to_owned(),
        jwt_secret: state.jwt_secret.clone(),
        stage: RefreshStage::AwaitToken,
        user_id: None,
        access_token: None,
        revoke: None,
    };
    let (flow, action) = refresh_step(flow, Event::RefreshToken(Ok(copy_found(found))));
    match action {
        Action::DeleteRefreshToken { token } => {
            let removed = state.refresh_token_repository.delete_token(token.as_str());
            let (_, action) = refresh_step(flow, Event::Stored(removed));
            answer(action)
        },
        // The machine has asked for the first step of a revocation and goes on
        // as the revocation machine does; `revoke_sessions` runs that machine
        // from its start, whose first step this is.
        Action::DeleteAllRefreshTokens { user_id } => Err(revoke_sessions(state, user_id)),
        Action::RotateRefreshToken { token, replacement } => {
            let rotated = state.refresh_token_repository.rotate_token(
                token.as_str(),
                replacement.as_str(),
                now,
            );
            let (_, action) = refresh_step(flow, Event::Rotated(rotated));
            match action {
                Action::DeleteAllRefreshTokens { user_id } => Err(revoke_sessions(state, user_id)),
                other => answer(other),
            }
        },
        other => answer(other),
    }
}

/// How `after` and the result of a refresh relate to `before`: as the
/// rotation says for what the store holds under the token, or nothing
/// has changed and the store has failed, which a dependable store does not.
pub open spec fn refresh_post(
    token: Seq<char>,
    now: u64,
    replacement: Seq<char>,
    before: Snapshot,
    after: Snapshot,
    r: Result<RefreshTokenResponseView, AuthError>,
) -> bool {
    let rotation = Rotation { token, found: lookup(before.refresh_tokens, token), now, replacement };
    &&& rotation.post(before, after, r) || (r == Err::<RefreshTokenResponseView, AuthError>(
        AuthError::Internal,
    ) && after == before)
    &&& before.store_dependable ==> rotation.post(before, after, r)
}

/// Exchanges the presented refresh token at `now` for a new access token
/// and the refresh token `replacement`.
pub fn refresh_token_with<
    U: UserRepositoryTrait,
    E: EmailVerificationRepositoryTrait,
    P: PasswordResetRepositoryTrait,
    R: RefreshTokenRepositoryTrait,
    N: NotificationGateway,
>(
    state: &mut AppState<U, E, P, R, N>,
    payload: RefreshTokenRequest,
    now: u64,
    replacement: &str,
) -> (r: Result<RefreshTokenResponse, AuthError>)
    requires
        old(state).inv(),
        now + ACCESS_TOKEN_TTL <= u64::MAX,
    ensures
        final(state).inv(),
        refresh_post(
            payload.refresh_token@,
            now,
            replacement@,
            old(state).snapshot(),
            final(state).snapshot(),
            result_view(r),
        ),
{
    let flow = RefreshFlow::start(
        payload.refresh_token,
        now,
        replacement.to_owned(),
        state.jwt_secret.clone(),
    );
    let (flow, action) = refresh_step(flow, Event::Started);
    let found = match action {
        Action::FindRefreshToken { token } => state.refresh_token_repository.find_by_token(
            token.as_str(),
        ),
        other => {
            return answer(other);
        },
    };
    match found {
        Ok(found) => complete_refresh(state, flow.refresh_token.as_str(), &found, now, replacement),
        Err(e) => {
            let (_, action) = refresh_step(flow, Event::RefreshToken(Err(e)));
            answer(action)
        },
    }
}

/// Text that confirms an email verification.
pub const EMAIL_VERIFIED_MESSAGE: &'static str = "Email verified successfully!";

/// Text that answers every request for a reset link, whether or not the
/// email belongs to a user.
pub const RESET_REQUESTED_MESSAGE: &'static str =
    "If that email exists, a password reset link has been sent.";

/// Text that confirms a password reset.
pub const PASSWORD_RESET_MESSAGE: &'static str =
    "Password has been reset successfully. You can now login with your new password.";

/// Text that confirms a logout.
pub const LOGGED_OUT_MESSAGE: &'static str = "Logged out successfully";

/// Where a presented single-use token stands.
#[derive(Clone, Copy, Debug, PartialEq, Eq, Structural)]
pub enum SingleUseVerdict {
    /// The store does not know the token.
    Unknown,
    /// The clock has passed the token's expiry.
    Expired,
    /// The token can be used, for this user.
    Valid { user_id: u128 },
}

/// Where the verification token stands that a lookup has found, or not
/// found, when the clock reads `now`.
pub open spec fn verification_verdict(
    found: Option<EmailVerificationTokenView>,
    now: u64,
) -> SingleUseVerdict {
    match found {
        None => SingleUseVerdict::Unknown,
        Some(t) => if t.is_expired_at(now) {
            SingleUseVerdict::Expired
        } else {
            SingleUseVerdict::Valid { user_id: t.user_id }
        },
    }
}

/// Where the reset token stands that a lookup has found, or not found, when
/// the clock reads `now`.
pub open spec fn reset_verdict(found: Option<PasswordResetTokenView>, now: u64) -> SingleUseVerdict {
    match found {
        None => SingleUseVerdict::Unknown,
        Some(t) => if t.is_expired_at(now) {
            SingleUseVerdict::Expired
        } else {
            SingleUseVerdict::Valid { user_id: t.user_id }
        },
    }
}

/// Judges what a lookup of a verification token has found.
pub fn classify_verification(found: &Option<EmailVerificationToken>, now: u64) -> (v:
    SingleUseVerdict)
    ensures
        v == verification_verdict(opt_view(*found), now),
{
    match found {
        None => SingleUseVerdict::Unknown,
        Some(t) => {
            if t.is_expired_at(now) {
                SingleUseVerdict::Expired
            } else {
                SingleUseVerdict::Valid { user_id: t.user_id }
            }
        },
    }
}

/// Judges what a lookup of a reset token has found.
pub fn classify_reset(found: &Option<PasswordResetToken>, now: u64) -> (v: SingleUseVerdict)
    ensures
        v == reset_verdict(opt_view(*found), now),
{
    match found {
        None => SingleUseVerdict::Unknown,
        Some(t) => {
            if t.is_expired_at(now) {
                SingleUseVerdict::Expired
            } else {
                SingleUseVerdict::Valid { user_id: t.user_id }
            }
        },
    }
}

/// The users after `user_id` got the password hash `hash` at `now`, if there
/// is such a user.
pub open spec fn users_with_password(
    users: Map<u128, UserView>,
    user_id: u128,
    hash: Seq<char>,
    now: u64,
) -> Map<u128, UserView> {
    with_user_changed(
        users,
        user_id,
        UserView { password_hash: hash, updated_at: now, ..users[user_id] },
    )
}

/// How the state and the result relate to the state before once the hasher
/// has answered with `hashed` for the user of a valid reset token. A hasher
/// that failed fails the reset before anything is done. With a hash, the
/// user has it afterwards and has no reset token left; where the store fails
/// on the way, the reset breaks off with what was done. A store that does not
/// fail carries the reset through.
pub open spec fn new_password_post(
    user_id: u128,
    hashed: Result<Seq<char>, HashingError>,
    now: u64,
    before: Snapshot,
    after: Snapshot,
    r: Result<Seq<char>, AuthError>,
) -> bool {
    match hashed {
        Err(_) => r == Err::<Seq<char>, AuthError>(AuthError::Internal) && after == before,
        Ok(hash) => {
            let users = users_with_password(before.users, user_id, hash, now);
            &&& match r {
                Ok(message) => {
                    &&& message == PASSWORD_RESET_MESSAGE@
                    &&& after == (Snapshot {
                        users,
                        reset_tokens: reset_tokens_of_others(before.reset_tokens, user_id),
                        ..before
                    })
                },
                Err(e) => {
                    &&& e == AuthError::Internal
                    &&& after == before || after == (Snapshot { users, ..before })
                },
            }
            &&& before.store_dependable ==> r is Ok
        },
    }
}

/// Carries a password reset through once the hasher has answered: replaces
/// the password hash of the user and removes every reset token of the user.
pub fn set_new_password<
    U: UserRepositoryTrait,
    E: EmailVerificationRepositoryTrait,
    P: PasswordResetRepositoryTrait,
    R: RefreshTokenRepositoryTrait,
    N: NotificationGateway,
>(
    state: &mut AppState<U, E, P, R, N>,
    payload: ResetPasswordRequest,
    user_id: u128,
    hashed: Result<String, HashingError>,
    now: u64,
) -> (r: Result<ResetPasswordResponse, AuthError>)
    requires
        old(state).inv(),
    ensures
        final(state).inv(),
        new_password_post(
            user_id,
            hashed_view(hashed),
            now,
            old(state).snapshot(),
            final(state).snapshot(),
            reset_result_view(r),
        ),
{
    let flow = ResetPasswordFlow {
        request: payload,
        now,
        stage: ResetPasswordStage::AwaitHash,
        user_id: Some(user_id),
    };
    let (flow, action) = reset_password_step(flow, Event::Hashed(hashed));
    let replaced = match action {
        Action::UpdatePassword { user_id, password_hash } => {
            state.user_repository.update_password(user_id, password_hash.as_str(), now)
        },
        other => {
            return answer(other);
        },
    };
    let (flow, action) = reset_password_step(flow, Event::Stored(replaced));
    let purged = match action {
        Action::DeleteAllResetTokens { user_id } => {
            state.password_reset_repository.delete_all_user_tokens(user_id)
        },
        other => {
            return answer(other);
        },
    };
    let (_, action) = reset_password_step(flow, Event::Stored(purged));
    answer(action)
}

/// A password reset: the token presented, the new password, the time.
pub struct PasswordReset {
    pub token: Seq<char>,
    pub new_password: Seq<char>,
    pub now: u64,
}

impl PasswordReset {
    /// The new password has the right shape.
    pub open spec fn is_valid(self) -> bool {
        self.new_password.len() >= 8
    }

    /// The users after `user_id` got the password hash `hash`.
    pub open spec fn users_after(
        self,
        users: Map<u128, UserView>,
        user_id: u128,
        hash: Seq<char>,
    ) -> Map<u128, UserView> {
        users_with_password(users, user_id, hash, self.now)
    }

    /// The reset went through for `user_id` with the hash `hash` of the new
    /// password: the user has that hash, and every reset token of the user
    /// is gone. Refresh tokens are left alone.
    pub open spec fn completed(
        self,
        before: Snapshot,
        after: Snapshot,
        user_id: u128,
        hash: Seq<char>,
    ) -> bool {
        &&& is_hash_of(hash, self.new_password)
        &&& after == (Snapshot {
            users: self.users_after(before.users, user_id, hash),
            reset_tokens: reset_tokens_of_others(before.reset_tokens, user_id),
            ..before
        })
    }

    /// The reset broke off after the password was replaced: the reset tokens
    /// are still there.
    pub open spec fn half_done(
        self,
        before: Snapshot,
        after: Snapshot,
        user_id: u128,
        hash: Seq<char>,
    ) -> bool {
        &&& is_hash_of(hash, self.new_password)
        &&& after == (Snapshot { users: self.users_after(before.users, user_id, hash), ..before })
    }

    /// How `after` and the result relate to `before`. With a store that
    /// does not fail, an unknown token is answered `NotFound`, an expired
    /// one `Gone`, and a valid one resets the password unless the hasher
    /// fails, before anything is done.
    pub open spec fn post(self, before: Snapshot, after: Snapshot, r: Result<Seq<char>, AuthError>) -> bool {
        if !self.is_valid() {
            r == Err::<Seq<char>, AuthError>(AuthError::Validation) && after == before
        } else {
            match reset_verdict(lookup(before.reset_tokens, self.token), self.now) {
                SingleUseVerdict::Unknown => {
                    &&& r == Err::<Seq<char>, AuthError>(AuthError::NotFound) || r == Err::<
                        Seq<char>,
                        AuthError,
                    >(AuthError::Internal)
                    &&& after == before
                    &&& before.store_dependable ==> r == Err::<Seq<char>, AuthError>(
                        AuthError::NotFound,
                    )
                },
                SingleUseVerdict::Expired => {
                    &&& {
                        ||| r == Err::<Seq<char>, AuthError>(AuthError::Gone) && after
                            == (Snapshot {
                            reset_tokens: before.reset_tokens.remove(self.token),
                            ..before
                        })
                        ||| r == Err::<Seq<char>, AuthError>(AuthError::Internal) && after
                            == before
                    }
                    &&& before.store_dependable ==> r == Err::<Seq<char>, AuthError>(
                        AuthError::Gone,
                    )
                },
                SingleUseVerdict::Valid { user_id } => {
                    &&& match r {
                        Ok(message) => {
                            &&& message == PASSWORD_RESET_MESSAGE@
                            &&& exists|hash: Seq<char>| #[trigger]
                                self.completed(before, after, user_id, hash)
                        },
                        Err(e) => {
                            &&& e == AuthError::Internal
                            &&& after == before || exists|hash: Seq<char>| #[trigger]
                                self.half_done(before, after, user_id, hash)
                        },
                    }
                    &&& before.store_dependable ==> r is Ok || (r == Err::<
                        Seq<char>,
                        AuthError,
                    >(AuthError::Internal) && after == before)
                },
            }
        }
    }
}

/// Value of the result of a password reset.
pub open spec fn reset_result_view(r: Result<ResetPasswordResponse, AuthError>) -> Result<
    Seq<char>,
    AuthError,
> {
    match r {
        Ok(response) => Ok(response.message@),
        Err(e) => Err(e),
    }
}

/// Sets a new password for the user of the presented reset token: `Gone`
/// for an expired token, which is removed; `NotFound` for an unknown one;
/// otherwise the hash of the new password replaces the old one and every
/// reset token of the user is removed. Refresh tokens stay as they are.
pub fn reset_password_at<
    U: UserRepositoryTrait,
    E: EmailVerificationRepositoryTrait,
    P: PasswordResetRepositoryTrait,
    R: RefreshTokenRepositoryTrait,
    N: NotificationGateway,
>(state: &mut AppState<U, E, P, R, N>, payload: ResetPasswordRequest, now: u64) -> (r: Result<
    ResetPasswordResponse,
    AuthError,
>)
    requires
        old(state).inv(),
    ensures
        final(state).inv(),
        (PasswordReset { token: payload.token@, new_password: payload.new_password@, now }).post(
            old(state).snapshot(),
            final(state).snapshot(),
            reset_result_view(r),
        ),
{
    let ghost request = PasswordReset {
        token: payload.token@,
        new_password: payload.new_password@,
        now,
    };
    let ghost before = state.snapshot();
    let flow = ResetPasswordFlow::start(payload, now);
    let (flow, action) = reset_password_step(flow, Event::Started);
    let found = match action {
        Action::FindResetToken { token } => state.password_reset_repository.find_by_token(
            token.as_str(),
        ),
        other => {
            return answer(other);
        },
    };
    let (flow, action) = reset_password_step(flow, Event::ResetToken(found));
    match action {
        Action::DeleteResetToken { token } => {
            let removed = state.password_reset_repository.delete_token(token.as_str());
            let (_, action) = reset_password_step(flow, Event::Stored(removed));
            answer(action)
        },
        Action::HashPassword { password } => {
            let user_id = match flow.user_id {
                Some(id) => id,
                None => {
                    return Err(AuthError::Internal);
                },
            };
            let hashed = hash_password(password.as_str());
            let r = set_new_password(state, flow.request, user_id, hashed, now);
            proof {
                if let Ok(hash) = hashed_view(hashed) {
                    assert(is_hash_of(hash, request.new_password));
                    if r is Ok {
                        assert(request.completed(before, state.snapshot(), user_id, hash));
                    } else if state.snapshot() != before {
                        assert(request.half_done(before, state.snapshot(), user_id, hash));
                    }
                }
            }
            r
        },
        other => answer(other),
    }
}

/// What the password check says of the user that a lookup by email found,
/// or did not find: an unknown email and a wrong password are refused in
/// the same way; a stored hash that cannot be read is a failure of the
/// service.
pub open spec fn credentials_verdict(found: Option<UserView>, password: Seq<char>) -> Result<
    (),
    AuthError,
> {
    match found {
        None => Err(AuthError::Unauthorized),
        Some(user) => match bcrypt_verdict(password, user.password_hash) {
            Some(true) => Ok(()),
            Some(false) => Err(AuthError::Unauthorized),
            None => Err(AuthError::Internal),
        },
    }
}

/// Checks the password against the user that a lookup by email found.
pub fn check_credentials(found: &Option<User>, password: &str) -> (r: Result<(), AuthError>)
    ensures
        r == credentials_verdict(opt_view(*found), password@),
{
    match found {
        None => Err(AuthError::Unauthorized),
        Some(user) => match verify_password(password, user.password_hash.as_str()) {
            Ok(true) => Ok(()),
            Ok(false) => Err(AuthError::Unauthorized),
            Err(_) => Err(AuthError::Internal),
        },
    }
}

/// The user `id` has the email.
pub open spec fn has_email(users: Map<u128, UserView>, id: u128, email: Seq<char>) -> bool {
    users.contains_key(id) && users[id].email == email
}

/// The credentials are not good: nobody has the email, or the password does
/// not match the hash of the user who has it.
pub open spec fn credentials_denied(
    users: Map<u128, UserView>,
    email: Seq<char>,
    password: Seq<char>,
) -> bool {
    ||| !email_taken(users, email)
    ||| exists|id: u128| #[trigger]
        has_email(users, id, email) && bcrypt_verdict(password, users[id].password_hash) == Some(
            false,
        )
}

/// A login: the credentials, the time, and the fresh refresh token.
pub struct Login {
    pub email: Seq<char>,
    pub password: Seq<char>,
    pub now: u64,
    pub refresh_token: Seq<char>,
}

impl Login {
    /// The fields have the right shape.
    pub open spec fn is_valid(self) -> bool {
        login_errors(self.email, self.password).len() == 0
    }

    /// The user `id` has the email of the login.
    pub open spec fn names(self, users: Map<u128, UserView>, id: u128) -> bool {
        has_email(users, id, self.email)
    }

    /// The login went through for the user `id`: the password matches the
    /// stored hash, the refresh token is new and belongs to the user, and
    /// the response shows the user and carries the refresh token and an
    /// access token for `id`. No other session is touched.
    pub open spec fn completed(
        self,
        before: Snapshot,
        after: Snapshot,
        response: LoginResponseView,
        id: u128,
    ) -> bool {
        &&& self.names(before.users, id)
        &&& bcrypt_verdict(self.password, before.users[id].password_hash) == Some(true)
        &&& !before.refresh_tokens.contains_key(self.refresh_token)
        &&& after == (Snapshot {
            refresh_tokens: before.refresh_tokens.insert(
                self.refresh_token,
                after.refresh_tokens[self.refresh_token],
            ),
            ..before
        })
        &&& is_new_refresh_token(
            after.refresh_tokens[self.refresh_token],
            id,
            self.refresh_token,
            self.now,
        )
        &&& response.user == public_view(before.users[id])
        &&& response.refresh_token == self.refresh_token
        &&& is_access_token_for(response.access_token, id, before.jwt_secret, self.now)
    }

    /// The credentials are not good: nobody has the email, or the password
    /// does not match the hash of the user who has it.
    pub open spec fn denied(self, users: Map<u128, UserView>) -> bool {
        credentials_denied(users, self.email, self.password)
    }

    /// The credentials are good: the password matches the hash of the user
    /// who has the email.
    pub open spec fn approved(self, users: Map<u128, UserView>) -> bool {
        exists|id: u128| #[trigger]
            self.names(users, id) && bcrypt_verdict(self.password, users[id].password_hash)
                == Some(true)
    }

    /// How `after` and the result relate to `before`. With a store that
    /// does not fail, bad credentials are answered `Unauthorized`, and good
    /// ones with a fresh refresh token open a session.
    pub open spec fn post(
        self,
        before: Snapshot,
        after: Snapshot,
        r: Result<LoginResponseView, AuthError>,
    ) -> bool {
        &&& before.store_dependable && self.is_valid() && self.denied(before.users) ==> r == Err::<
            LoginResponseView,
            AuthError,
        >(AuthError::Unauthorized)
        &&& before.store_dependable && self.is_valid() && self.approved(before.users)
            && !before.refresh_tokens.contains_key(self.refresh_token) ==> r is Ok
        &&& match r {
            Ok(response) => self.is_valid() && exists|id: u128| #[trigger]
                self.completed(before, after, response, id),
            Err(AuthError::Validation) => !self.is_valid() && after == before,
            Err(AuthError::Unauthorized) => self.is_valid() && self.denied(before.users) && after
                == before,
            Err(AuthError::Internal) => self.is_valid() && after == before,
            Err(_) => false,
        }
        &&& !self.is_valid() ==> r == Err::<LoginResponseView, AuthError>(AuthError::Validation)
        &&& self.is_valid() && self.denied(before.users) ==> r == Err::<
            LoginResponseView,
            AuthError,
        >(AuthError::Unauthorized) || r == Err::<LoginResponseView, AuthError>(
            AuthError::Internal,
        )
    }
}

/// Logs a user in at `now` with the given fresh refresh token. An unknown
/// email and a wrong password get the same answer. Other sessions of the
/// user stay as they are.
pub fn login_with<
    U: UserRepositoryTrait,
    E: EmailVerificationRepositoryTrait,
    P: PasswordResetRepositoryTrait,
    R: RefreshTokenRepositoryTrait,
    N: NotificationGateway,
>(
    state: &mut AppState<U, E, P, R, N>,
    payload: LoginUserRequest,
    now: u64,
    refresh_token: &str,
) -> (r: Result<LoginResponse, AuthError>)
    requires
        old(state).inv(),
        now + ACCESS_TOKEN_TTL <= u64::MAX,
    ensures
        final(state).inv(),
        (Login {
            email: payload.user.email@,
            password: payload.user.password@,
            now,
            refresh_token: refresh_token@,
        }).post(old(state).snapshot(), final(state).snapshot(), result_view(r)),
{
    let ghost request = Login {
        email: payload.user.email@,
        password: payload.user.password@,
        now,
        refresh_token: refresh_token@,
    };
    let ghost before = state.snapshot();
    let flow = LoginFlow::start(payload, now, refresh_token.to_owned(), state.jwt_secret.clone());
    let (flow, action) = login_step(flow, Event::Started);
    let found = match action {
        Action::FindUserByEmail { email } => state.user_repository.find_by_email(email.as_str()),
        other => {
            return answer(other);
        },
    };
    let ghost seen = found;
    proof {
        state.user_repository.lemma_users_wf();
        if seen is Ok && seen->Ok_0 is Some {
            let user = seen->Ok_0->Some_0;
            assert(request.names(before.users, user.id));
            assert forall|id: u128| #[trigger] request.names(before.users, id) implies id
                == user.id by {}
        }
    }
    let (flow, action) = login_step(flow, Event::User(found));
    let created = match action {
        Action::CreateRefreshToken { user_id, token } => {
            state.refresh_token_repository.create_token(user_id, token.as_str(), now)
        },
        other => {
            return answer(other);
        },
    };
    let (_, action) = login_step(flow, stored(created));
    let r = answer(action);
    proof {
        if r is Ok {
            let id = seen->Ok_0->Some_0.id;
            assert(request.completed(before, state.snapshot(), r->Ok_0@, id));
        }
    }
    r
}

/// The user after the email was verified at `now`.
pub open spec fn verified_user(user: UserView, now: u64) -> UserView {
    UserView { email_verified: true, updated_at: now, ..user }
}

/// How the state and the result after presenting a verification token
/// relate to the state before. With a store that does not fail, an unknown
/// token is answered `NotFound`, an expired one `Gone`, and a valid one
/// verifies the email.
pub open spec fn verify_email_post(
    token: Option<Seq<char>>,
    now: u64,
    before: Snapshot,
    after: Snapshot,
    r: Result<Seq<char>, AuthError>,
) -> bool {
    match token {
        None => r == Err::<Seq<char>, AuthError>(AuthError::Validation) && after == before,
        Some(t) => match verification_verdict(lookup(before.verification_tokens, t), now) {
            SingleUseVerdict::Unknown => {
                &&& r == Err::<Seq<char>, AuthError>(AuthError::NotFound) || r == Err::<
                    Seq<char>,
                    AuthError,
                >(AuthError::Internal)
                &&& after == before
                &&& before.store_dependable ==> r == Err::<Seq<char>, AuthError>(
                    AuthError::NotFound,
                )
            },
            SingleUseVerdict::Expired => {
                &&& {
                    ||| r == Err::<Seq<char>, AuthError>(AuthError::Gone) && after == (Snapshot {
                        verification_tokens: before.verification_tokens.remove(t),
                        ..before
                    })
                    ||| r == Err::<Seq<char>, AuthError>(AuthError::Internal) && after == before
                }
                &&& before.store_dependable ==> r == Err::<Seq<char>, AuthError>(AuthError::Gone)
            },
            SingleUseVerdict::Valid { user_id } => {
                let users = with_user_changed(
                    before.users,
                    user_id,
                    verified_user(before.users[user_id], now),
                );
                &&& match r {
                    Ok(message) => {
                        &&& message == EMAIL_VERIFIED_MESSAGE@
                        &&& after == (Snapshot {
                            users,
                            verification_tokens: before.verification_tokens.remove(t),
                            ..before
                        })
                    },
                    Err(e) => {
                        &&& e == AuthError::Internal
                        &&& after == before || after == (Snapshot { users, ..before })
                    },
                }
                &&& before.store_dependable ==> r is Ok
            },
        },
    }
}

/// Value of the result of an email verification.
pub open spec fn verify_result_view(r: Result<VerifyEmailResponse, AuthError>) -> Result<
    Seq<char>,
    AuthError,
> {
    match r {
        Ok(response) => Ok(response.message@),
        Err(e) => Err(e),
    }
}

/// Verifies the email of the user of the presented token at `now`:
/// `Validation` where no token is presented; `NotFound` for an unknown
/// token; `Gone` for an expired one, which is removed; otherwise the user is
/// marked as verified and the token is removed, so that it works once.
pub fn verify_email_at<
    U: UserRepositoryTrait,
    E: EmailVerificationRepositoryTrait,
    P: PasswordResetRepositoryTrait,
    R: RefreshTokenRepositoryTrait,
    N: NotificationGateway,
>(state: &mut AppState<U, E, P, R, N>, token: Option<&str>, now: u64) -> (r: Result<
    VerifyEmailResponse,
    AuthError,
>)
    requires
        old(state).inv(),
    ensures
        final(state).inv(),
        verify_email_post(
            opt_str(token),
            now,
            old(state).snapshot(),
            final(state).snapshot(),
            verify_result_view(r),
        ),
{
    let presented = match token {
        Some(t) => Some(t.to_owned()),
        None => None,
    };
    let flow = VerifyEmailFlow::start(presented, now);
    let (flow, action) = verify_email_step(flow, Event::Started);
    let found = match action {
        Action::FindVerificationToken { token } => {
            state.email_verification_repository.find_by_token(token.as_str())
        },
        other => {
            return answer(other);
        },
    };
    let (flow, action) = verify_email_step(flow, Event::VerificationToken(found));
    match action {
        Action::DeleteVerificationToken { token } => {
            let removed = state.email_verification_repository.delete_token(token.as_str());
            let (_, action) = verify_email_step(flow, Event::Stored(removed));
            answer(action)
        },
        Action::VerifyUserEmail { user_id } => {
            let marked = state.user_repository.verify_user_email(user_id, now);
            let (flow, action) = verify_email_step(flow, Event::Stored(marked));
            let removed = match action {
                Action::DeleteVerificationToken { token } => {
                    state.email_verification_repository.delete_token(token.as_str())
                },
                other => {
                    return answer(other);
                },
            };
            let (_, action) = verify_email_step(flow, Event::Stored(removed));
            answer(action)
        },
        other => answer(other),
    }
}

/// A request for a reset link: the email, the time, the fresh reset token.
pub struct ResetLinkRequest {
    pub email: Seq<char>,
    pub now: u64,
    pub reset_token: Seq<char>,
}

impl ResetLinkRequest {
    /// The reset token of the user `id` is in `after` and was not in
    /// `before`; it expires an hour after the request.
    pub open spec fn token_stored(self, before: Snapshot, after: Snapshot, id: u128) -> bool {
        let t = self.reset_token;
        &&& before.users.contains_key(id)
        &&& before.users[id].email == self.email
        &&& !before.reset_tokens.contains_key(t)
        &&& after.reset_tokens == before.reset_tokens.insert(t, after.reset_tokens[t])
        &&& after.reset_tokens[t] == PasswordResetTokenView {
            id: after.reset_tokens[t].id,
            user_id: id,
            token: t,
            expires_at: (self.now + RESET_TOKEN_TTL) as u64,
            created_at: self.now,
        }
    }

    /// The message that carries the reset token to the user.
    pub open spec fn message(self, user: UserView) -> Notification {
        Notification::PasswordReset {
            to: user.email,
            username: user.username,
            token: self.reset_token,
        }
    }

    /// The link was stored for the user `id` and sent.
    pub open spec fn sent(self, before: Snapshot, after: Snapshot, id: u128) -> bool {
        &&& self.token_stored(before, after, id)
        &&& after == (Snapshot {
            reset_tokens: after.reset_tokens,
            delivered: before.delivered.push(self.message(before.users[id])),
            ..before
        })
    }

    /// The link was stored for the user `id`, but not sent.
    pub open spec fn stored_only(self, before: Snapshot, after: Snapshot, id: u128) -> bool {
        &&& self.token_stored(before, after, id)
        &&& after == (Snapshot { reset_tokens: after.reset_tokens, ..before })
    }

    /// How `after` and the result relate to `before`. The answer to a
    /// well-formed request is the same text whether or not the email belongs
    /// to a user. With a store that does not fail, the request is answered
    /// so for an unknown email, and for a known one where the token is fresh
    /// and the gateway does not fail either.
    pub open spec fn post(self, before: Snapshot, after: Snapshot, r: Result<Seq<char>, AuthError>) -> bool {
        if !email_well_formed(self.email) {
            r == Err::<Seq<char>, AuthError>(AuthError::Validation) && after == before
        } else {
            &&& match r {
                Ok(message) => {
                    &&& message == RESET_REQUESTED_MESSAGE@
                    &&& if email_taken(before.users, self.email) {
                        exists|id: u128| #[trigger] self.sent(before, after, id)
                    } else {
                        after == before
                    }
                },
                Err(e) => {
                    &&& e == AuthError::Internal
                    &&& after == before || exists|id: u128| #[trigger]
                        self.stored_only(before, after, id)
                },
            }
            &&& before.store_dependable && (!email_taken(before.users, self.email) || (
                before.gateway_dependable && !before.reset_tokens.contains_key(self.reset_token)))
                ==> r is Ok
        }
    }
}

/// Value of the result of a request for a reset link.
pub open spec fn forgot_result_view(r: Result<ForgotPasswordResponse, AuthError>) -> Result<
    Seq<char>,
    AuthError,
> {
    match r {
        Ok(response) => Ok(response.message@),
        Err(e) => Err(e),
    }
}

/// Answers a request for a reset link at `now`. Where the email belongs to
/// a user, the reset token is stored for an hour and delivered. The answer
/// does not tell whether it does.
pub fn forgot_password_with<
    U: UserRepositoryTrait,
    E: EmailVerificationRepositoryTrait,
    P: PasswordResetRepositoryTrait,
    R: RefreshTokenRepositoryTrait,
    N: NotificationGateway,
>(
    state: &mut AppState<U, E, P, R, N>,
    payload: ForgotPasswordRequest,
    now: u64,
    reset_token: &str,
) -> (r: Result<ForgotPasswordResponse, AuthError>)
    requires
        old(state).inv(),
        now + RESET_TOKEN_TTL <= u64::MAX,
    ensures
        final(state).inv(),
        (ResetLinkRequest { email: payload.email@, now, reset_token: reset_token@ }).post(
            old(state).snapshot(),
            final(state).snapshot(),
            forgot_result_view(r),
        ),
{
    let ghost request = ResetLinkRequest { email: payload.email@, now, reset_token: reset_token@ };
    let ghost before = state.snapshot();
    let flow = ForgotPasswordFlow::start(payload, now, reset_token.to_owned());
    let (flow, action) = forgot_password_step(flow, Event::Started);
    let found = match action {
        Action::FindUserByEmail { email } => state.user_repository.find_by_email(email.as_str()),
        other => {
            return answer(other);
        },
    };
    let ghost seen = found;
    let (flow, action) = forgot_password_step(flow, Event::User(found));
    let created = match action {
        Action::CreateResetToken { user_id, token, expires_at } => {
            state.password_reset_repository.create_token(user_id, token.as_str(), expires_at, now)
        },
        other => {
            return answer(other);
        },
    };
    let ghost id = seen->Ok_0->Some_0.id;
    assert(before.users.contains_key(id));
    let (flow, action) = forgot_password_step(flow, stored(created));
    let sent = match action {
        Action::SendPasswordResetEmail { to, username, token } => {
            assert(request.stored_only(before, state.snapshot(), id));
            state.email_service.send_password_reset_email(
                to.as_str(),
                username.as_str(),
                token.as_str(),
            )
        },
        other => {
            return answer(other);
        },
    };
    let (_, action) = forgot_password_step(flow, Event::Sent(sent));
    proof {
        if sent is Ok {
            assert(request.sent(before, state.snapshot(), id));
        }
    }
    answer(action)
}

/// How the state and the result after a logout relate to the state before:
/// the presented refresh token is gone, whoever it belonged to, and every
/// other session is as it was. Only a store that fails keeps it.
pub open spec fn logout_post(
    token: Seq<char>,
    before: Snapshot,
    after: Snapshot,
    r: Result<Seq<char>, AuthError>,
) -> bool {
    &&& match r {
        Ok(message) => {
            &&& message == LOGGED_OUT_MESSAGE@
            &&& after == (Snapshot {
                refresh_tokens: before.refresh_tokens.remove(token),
                ..before
            })
        },
        Err(e) => e == AuthError::Internal && after == before,
    }
    &&& before.store_dependable ==> r is Ok
}

/// Value of the result of a logout.
pub open spec fn logout_result_view(r: Result<LogoutResponse, AuthError>) -> Result<
    Seq<char>,
    AuthError,
> {
    match r {
        Ok(response) => Ok(response.message@),
        Err(e) => Err(e),
    }
}

/// Ends the session of the presented refresh token by removing the token.
pub fn logout<
    U: UserRepositoryTrait,
    E: EmailVerificationRepositoryTrait,
    P: PasswordResetRepositoryTrait,
    R: RefreshTokenRepositoryTrait,
    N: NotificationGateway,
>(state: &mut AppState<U, E, P, R, N>, payload: LogoutRequest) -> (r: Result<
    LogoutResponse,
    AuthError,
>)
    requires
        old(state).inv(),
    ensures
        final(state).inv(),
        logout_post(
            payload.refresh_token@,
            old(state).snapshot(),
            final(state).snapshot(),
            logout_result_view(r),
        ),
{
    let flow = LogoutFlow::start(payload.refresh_token);
    let (flow, action) = logout_step(flow, Event::Started);
    let removed = match action {
        Action::DeleteRefreshToken { token } => state.refresh_token_repository.delete_token(
            token.as_str(),
        ),
        other => {
            return answer(other);
        },
    };
    let (_, action) = logout_step(flow, Event::Stored(removed));
    answer(action)
}

/// The registration that `payload` asks for at `now` with the given tokens.
pub open spec fn registration_of(
    payload: RegisterUserRequest,
    now: u64,
    verification_token: Seq<char>,
    refresh_token: Seq<char>,
) -> Registration {
    Registration {
        username: payload.user.username@,
        email: payload.user.email@,
        password: payload.user.password@,
        now,
        verification_token,
        refresh_token,
    }
}

/// The login that `payload` asks for at `now` with the given token.
pub open spec fn login_of(payload: LoginUserRequest, now: u64, refresh_token: Seq<char>) -> Login {
    Login { email: payload.user.email@, password: payload.user.password@, now, refresh_token }
}

/// The request for a reset link that `payload` makes at `now` with the
/// given token.
pub open spec fn reset_link_request_of(
    payload: ForgotPasswordRequest,
    now: u64,
    reset_token: Seq<char>,
) -> ResetLinkRequest {
    ResetLinkRequest { email: payload.email@, now, reset_token }
}

/// The password reset that `payload` asks for at `now`.
pub open spec fn password_reset_of(payload: ResetPasswordRequest, now: u64) -> PasswordReset {
    PasswordReset { token: payload.token@, new_password: payload.new_password@, now }
}

/// Registers a user now, with a fresh verification token and a fresh
/// refresh token. A malformed request is refused before anything else is
/// looked at, and with a store that does not fail a taken email or username
/// is answered `Conflict`; neither changes anything.
pub fn register<
    U: UserRepositoryTrait,
    E: EmailVerificationRepositoryTrait,
    P: PasswordResetRepositoryTrait,
    R: RefreshTokenRepositoryTrait,
    N: NotificationGateway,
>(state: &mut AppState<U, E, P, R, N>, payload: RegisterUserRequest) -> (r: Result<
    LoginResponse,
    AuthError,
>)
    requires
        old(state).inv(),
    ensures
        final(state).inv(),
        exists|now: u64, verification_token: Seq<char>, refresh_token: Seq<char>|
            {
                &&& now + VERIFICATION_TOKEN_TTL <= u64::MAX
                &&& is_link_token_text(verification_token)
                &&& is_refresh_token_text(refresh_token)
                &&& (#[trigger] registration_of(
                    payload,
                    now,
                    verification_token,
                    refresh_token,
                )).post(old(state).snapshot(), final(state).snapshot(), result_view(r))
            },
        !payload.user.is_valid() ==> r == Err::<LoginResponse, AuthError>(AuthError::Validation)
            && final(state).snapshot() == old(state).snapshot(),
        payload.user.is_valid() && old(state).snapshot().store_dependable && (email_taken(
            old(state).snapshot().users,
            payload.user.email@,
        ) || username_taken(old(state).snapshot().users, payload.user.username@)) ==> r == Err::<
            LoginResponse,
            AuthError,
        >(AuthError::Conflict) && final(state).snapshot() == old(state).snapshot(),
{
    let now = unix_now();
    let verification_token = generate_verification_token();
    let refresh_token = generate_refresh_token();
    let ghost request = registration_of(payload, now, verification_token@, refresh_token@);
    let r = register_with(state, payload, now, verification_token.as_str(), refresh_token.as_str());
    assert(request.post(old(state).snapshot(), state.snapshot(), result_view(r)));
    r
}

/// Logs a user in now, with a fresh refresh token. A malformed request is
/// refused before anything else is looked at, and with a store that does not
/// fail an unknown email and a wrong password are both answered
/// `Unauthorized`; none of this changes anything.
pub fn login<
    U: UserRepositoryTrait,
    E: EmailVerificationRepositoryTrait,
    P: PasswordResetRepositoryTrait,
    R: RefreshTokenRepositoryTrait,
    N: NotificationGateway,
>(state: &mut AppState<U, E, P, R, N>, payload: LoginUserRequest) -> (r: Result<
    LoginResponse,
    AuthError,
>)
    requires
        old(state).inv(),
    ensures
        final(state).inv(),
        exists|now: u64, refresh_token: Seq<char>|
            {
                &&& now + ACCESS_TOKEN_TTL <= u64::MAX
                &&& is_refresh_token_text(refresh_token)
                &&& (#[trigger] login_of(payload, now, refresh_token)).post(
                    old(state).snapshot(),
                    final(state).snapshot(),
                    result_view(r),
                )
            },
        !payload.user.is_valid() ==> r == Err::<LoginResponse, AuthError>(AuthError::Validation)
            && final(state).snapshot() == old(state).snapshot(),
        payload.user.is_valid() && old(state).snapshot().store_dependable && credentials_denied(
            old(state).snapshot().users,
            payload.user.email@,
            payload.user.password@,
        ) ==> r == Err::<LoginResponse, AuthError>(AuthError::Unauthorized) && final(state).snapshot() == old(state).snapshot(),
{
    let now = unix_now();
    let refresh_token = generate_refresh_token();
    let ghost request = login_of(payload, now, refresh_token@);
    let r = login_with(state, payload, now, refresh_token.as_str());
    assert(request.post(old(state).snapshot(), state.snapshot(), result_view(r)));
    r
}

/// Shows the authenticated user to themselves.
pub fn current_user(auth: RequireAuth) -> (r: Result<UserResponse, AuthError>)
    ensures
        r matches Ok(response) && response.user@ == public_view(auth.0@),
{
    Ok(UserResponse { user: UserData::from_user(auth.0) })
}

/// Verifies the email of the user of the presented token now. A request
/// without a token is refused; with a store that does not fail an unknown
/// token is answered `NotFound`; neither changes anything.
pub fn verify_email<
    U: UserRepositoryTrait,
    E: EmailVerificationRepositoryTrait,
    P: PasswordResetRepositoryTrait,
    R: RefreshTokenRepositoryTrait,
    N: NotificationGateway,
>(state: &mut AppState<U, E, P, R, N>, token: Option<&str>) -> (r: Result<
    VerifyEmailResponse,
    AuthError,
>)
    requires
        old(state).inv(),
    ensures
        final(state).inv(),
        exists|now: u64| #[trigger]
            verify_email_post(
                opt_str(token),
                now,
                old(state).snapshot(),
                final(state).snapshot(),
                verify_result_view(r),
            ),
        token is None ==> r == Err::<VerifyEmailResponse, AuthError>(AuthError::Validation)
            && final(state).snapshot() == old(state).snapshot(),
        token matches Some(t) && old(state).snapshot().store_dependable && !old(state).snapshot().verification_tokens.contains_key(t@) ==> r == Err::<
            VerifyEmailResponse,
            AuthError,
        >(AuthError::NotFound) && final(state).snapshot() == old(state).snapshot(),
{
    let now = unix_now();
    verify_email_at(state, token, now)
}

/// Answers a request for a reset link now, with a fresh reset token. A
/// malformed request is refused before anything else is looked at; with a
/// store that does not fail, a request for an unknown email gets the usual
/// answer and changes nothing.
pub fn forgot_password<
    U: UserRepositoryTrait,
    E: EmailVerificationRepositoryTrait,
    P: PasswordResetRepositoryTrait,
    R: RefreshTokenRepositoryTrait,
    N: NotificationGateway,
>(state: &mut AppState<U, E, P, R, N>, payload: ForgotPasswordRequest) -> (r:
    Result<ForgotPasswordResponse, AuthError>)
    requires
        old(state).inv(),
    ensures
        final(state).inv(),
        exists|now: u64, reset_token: Seq<char>|
            {
                &&& now + RESET_TOKEN_TTL <= u64::MAX
                &&& is_link_token_text(reset_token)
                &&& (#[trigger] reset_link_request_of(payload, now, reset_token)).post(
                    old(state).snapshot(),
                    final(state).snapshot(),
                    forgot_result_view(r),
                )
            },
        !payload.is_valid() ==> r == Err::<ForgotPasswordResponse, AuthError>(
            AuthError::Validation,
        ) && final(state).snapshot() == old(state).snapshot(),
        payload.is_valid() && old(state).snapshot().store_dependable && !email_taken(
            old(state).snapshot().users,
            payload.email@,
        ) ==> forgot_result_view(r) == Ok::<Seq<char>, AuthError>(RESET_REQUESTED_MESSAGE@)
            && final(state).snapshot() == old(state).snapshot(),
{
    let now = unix_now();
    let reset_token = generate_verification_token();
    let ghost request = reset_link_request_of(payload, now, reset_token@);
    let r = forgot_password_with(state, payload, now, reset_token.as_str());
    assert(request.post(old(state).snapshot(), state.snapshot(), forgot_result_view(r)));
    r
}

/// Sets a new password for the user of the presented reset token now. A
/// password that is too short is refused before the token is looked at; with
/// a store that does not fail an unknown token is answered `NotFound`;
/// neither changes anything.
pub fn reset_password<
    U: UserRepositoryTrait,
    E: EmailVerificationRepositoryTrait,
    P: PasswordResetRepositoryTrait,
    R: RefreshTokenRepositoryTrait,
    N: NotificationGateway,
>(state: &mut AppState<U, E, P, R, N>, payload: ResetPasswordRequest) -> (r:
    Result<ResetPasswordResponse, AuthError>)
    requires
        old(state).inv(),
    ensures
        final(state).inv(),
        exists|now: u64|
            (#[trigger] password_reset_of(payload, now)).post(
                old(state).snapshot(),
                final(state).snapshot(),
                reset_result_view(r),
            ),
        !payload.is_valid() ==> r == Err::<ResetPasswordResponse, AuthError>(
            AuthError::Validation,
        ) && final(state).snapshot() == old(state).snapshot(),
        payload.is_valid() && old(state).snapshot().store_dependable && !old(state).snapshot().reset_tokens.contains_key(payload.token@) ==> r == Err::<
            ResetPasswordResponse,
            AuthError,
        >(AuthError::NotFound) && final(state).snapshot() == old(state).snapshot(),
{
    let now = unix_now();
    let ghost request = password_reset_of(payload, now);
    let r = reset_password_at(state, payload, now);
    assert(request.post(old(state).snapshot(), state.snapshot(), reset_result_view(r)));
    r
}

/// Exchanges the presented refresh token now for a new access token and a
/// fresh refresh token. With a store that does not fail an unknown token is
/// refused and nothing changes; a consumed token never gets new tokens.
pub fn refresh_token<
    U: UserRepositoryTrait,
    E: EmailVerificationRepositoryTrait,
    P: PasswordResetRepositoryTrait,
    R: RefreshTokenRepositoryTrait,
    N: NotificationGateway,
>(state: &mut AppState<U, E, P, R, N>, payload: RefreshTokenRequest) -> (r:
    Result<RefreshTokenResponse, AuthError>)
    requires
        old(state).inv(),
    ensures
        final(state).inv(),
        exists|now: u64, replacement: Seq<char>|
            {
                &&& now + ACCESS_TOKEN_TTL <= u64::MAX
                &&& is_refresh_token_text(replacement)
                &&& #[trigger] refresh_post(
                    payload.refresh_token@,
                    now,
                    replacement,
                    old(state).snapshot(),
                    final(state).snapshot(),
                    result_view(r),
                )
            },
        old(state).snapshot().store_dependable && !old(state).snapshot().refresh_tokens.contains_key(payload.refresh_token@) ==> r == Err::<
            RefreshTokenResponse,
            AuthError,
        >(AuthError::Unauthorized) && final(state).snapshot() == old(state).snapshot(),
        !is_unused(old(state).snapshot().refresh_tokens, payload.refresh_token@) ==> r is Err,
{
    let now = unix_now();
    let replacement = generate_refresh_token();
    let ghost presented = payload.refresh_token@;
    let r = refresh_token_with(state, payload, now, replacement.as_str());
    assert(refresh_post(
        presented,
        now,
        replacement@,
        old(state).snapshot(),
        state.snapshot(),
        result_view(r),
    ));
    r
}

} // verus!

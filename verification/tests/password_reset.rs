use realworld_auth::auth::password::verify_password;
use realworld_auth::errors::AuthError;
use realworld_auth::auth::password::HashingError;
use realworld_auth::handlers::auth::{
    classify_reset, forgot_password_with, reset_password_at, set_new_password, SingleUseVerdict,
    PASSWORD_RESET_MESSAGE, RESET_REQUESTED_MESSAGE, RESET_TOKEN_TTL,
};
use realworld_auth::handlers::{forgot_password, reset_password};
use realworld_auth::models::{PasswordResetToken, User};
use realworld_auth::repositories::{
    EmailVerificationRepository, PasswordResetRepository, PasswordResetRepositoryTrait,
    RefreshTokenRepository, RefreshTokenRepositoryTrait, UserRepository, UserRepositoryTrait,
};
use realworld_auth::schemas::{
    ForgotPasswordRequest, ForgotPasswordResponse, ResetPasswordRequest, ResetPasswordResponse,
};
use realworld_auth::services::{Outbox, OutboxEntry};
use realworld_auth::state::AppState;

type State = AppState<
    UserRepository,
    EmailVerificationRepository,
    PasswordResetRepository,
    RefreshTokenRepository,
    Outbox,
>;

const T0: u64 = 1_700_000_000;
const HOUR: u64 = 3_600;
const GENERIC: &str = "If that email exists, a password reset link has been sent.";

fn state_with_users() -> (State, User, User) {
    let mut state = AppState::new(
        UserRepository::new(),
        EmailVerificationRepository::new(),
        PasswordResetRepository::new(),
        RefreshTokenRepository::new(604_800),
        Outbox::new(),
        "signing-secret".to_string(),
    );
    let alice = state.user_repository.create("alice", "alice@example.com", "hash-a", T0).unwrap();
    let bob = state.user_repository.create("bob", "bob@example.com", "hash-b", T0).unwrap();
    (state, alice, bob)
}

fn forgot(email: &str) -> ForgotPasswordRequest {
    ForgotPasswordRequest { email: email.to_string() }
}

fn reset(token: &str, new_password: &str) -> ResetPasswordRequest {
    ResetPasswordRequest { token: token.to_string(), new_password: new_password.to_string() }
}

#[test]
fn reset_link_is_stored_for_an_hour_and_sent() {
    let (mut state, alice, _) = state_with_users();
    let answer = forgot_password_with(&mut state, forgot("alice@example.com"), T0, "p1");
    assert_eq!(answer, Ok(ForgotPasswordResponse { message: GENERIC.to_string() }));
    let row = state.password_reset_repository.find_by_token("p1").unwrap().unwrap();
    assert_eq!(row.user_id, alice.id);
    assert_eq!(row.expires_at, T0 + HOUR);
    assert_eq!(row.created_at, T0);
    assert_eq!(RESET_TOKEN_TTL, 3_600);
    assert_eq!(
        state.email_service.entries,
        vec![OutboxEntry::PasswordReset {
            to: "alice@example.com".to_string(),
            username: "alice".to_string(),
            token: "p1".to_string(),
        }]
    );
}

#[test]
fn unknown_email_gets_the_same_answer_and_nothing_happens() {
    let (mut state, _, _) = state_with_users();
    let known = forgot_password_with(&mut state, forgot("alice@example.com"), T0, "p1");
    let unknown = forgot_password_with(&mut state, forgot("nobody@example.com"), T0, "p2");
    assert_eq!(known, unknown);
    assert_eq!(unknown.unwrap().message, RESET_REQUESTED_MESSAGE);
    assert_eq!(state.password_reset_repository.len(), 1);
    assert_eq!(state.email_service.entries.len(), 1);
}

#[test]
fn malformed_email_is_refused() {
    let (mut state, _, _) = state_with_users();
    assert_eq!(forgot_password_with(&mut state, forgot("alice"), T0, "p1"), Err(AuthError::Validation));
    assert_eq!(state.password_reset_repository.len(), 0);
}

#[test]
fn failed_delivery_of_the_reset_link_is_a_failure() {
    let (mut state, _, _) = state_with_users();
    state.email_service.online = false;
    assert_eq!(
        forgot_password_with(&mut state, forgot("alice@example.com"), T0, "p1"),
        Err(AuthError::Internal)
    );
    assert_eq!(AuthError::Internal.status_code(), 500);
    assert_eq!(state.password_reset_repository.len(), 1);
}

#[test]
fn reset_replaces_the_password_and_removes_the_users_reset_tokens() {
    let (mut state, alice, bob) = state_with_users();
    state.password_reset_repository.create_token(alice.id, "p1", T0 + HOUR, T0).unwrap();
    state.password_reset_repository.create_token(alice.id, "p2", T0 + HOUR, T0).unwrap();
    state.password_reset_repository.create_token(bob.id, "p-bob", T0 + HOUR, T0).unwrap();
    state.refresh_token_repository.create_token(alice.id, "r-alice", T0).unwrap();

    let answer = reset_password_at(&mut state, reset("p1", "new-password"), T0 + HOUR);
    assert_eq!(answer, Ok(ResetPasswordResponse { message: PASSWORD_RESET_MESSAGE.to_string() }));
    assert_eq!(
        PASSWORD_RESET_MESSAGE,
        "Password has been reset successfully. You can now login with your new password."
    );

    let after = state.user_repository.find_by_id(alice.id).unwrap().unwrap();
    assert_eq!(verify_password("new-password", &after.password_hash), Ok(true));
    assert_eq!(verify_password("password1234", &after.password_hash), Ok(false));
    assert_eq!(after.updated_at, T0 + HOUR);
    assert_eq!(state.user_repository.find_by_id(bob.id).unwrap().unwrap().password_hash, "hash-b");

    // the sibling request of the same user is void, another user's is not
    assert_eq!(state.password_reset_repository.find_by_token("p1").unwrap(), None);
    assert_eq!(state.password_reset_repository.find_by_token("p2").unwrap(), None);
    let kept = state.password_reset_repository.find_by_token("p-bob").unwrap().unwrap();
    assert_eq!(kept.user_id, bob.id);
    assert_eq!(kept.expires_at, T0 + HOUR);
    assert_eq!(state.password_reset_repository.len(), 1);
    // sessions stay open
    assert_eq!(state.refresh_token_repository.count_for_user(alice.id), 1);

    // presenting the token again
    assert_eq!(reset_password_at(&mut state, reset("p1", "third-password"), T0), Err(AuthError::NotFound));
    assert_eq!(reset_password_at(&mut state, reset("p2", "third-password"), T0), Err(AuthError::NotFound));
}

#[test]
fn expired_reset_token_is_gone() {
    let (mut state, alice, _) = state_with_users();
    state.password_reset_repository.create_token(alice.id, "p1", T0 + HOUR, T0).unwrap();
    state.password_reset_repository.create_token(alice.id, "p2", T0 + 2 * HOUR, T0).unwrap();
    assert_eq!(reset_password_at(&mut state, reset("p1", "new-password"), T0 + HOUR + 1), Err(AuthError::Gone));
    assert_eq!(state.password_reset_repository.find_by_token("p1").unwrap(), None);
    assert!(state.password_reset_repository.find_by_token("p2").unwrap().is_some());
    assert_eq!(state.user_repository.find_by_id(alice.id).unwrap().unwrap().password_hash, "hash-a");
    assert_eq!(reset_password_at(&mut state, reset("p1", "new-password"), T0), Err(AuthError::NotFound));
}

#[test]
fn short_password_is_refused_before_the_token_is_looked_at() {
    let (mut state, alice, _) = state_with_users();
    state.password_reset_repository.create_token(alice.id, "p1", T0, T0).unwrap();
    assert_eq!(reset_password_at(&mut state, reset("p1", "short"), T0 + 1), Err(AuthError::Validation));
    assert_eq!(reset_password_at(&mut state, reset("nope", "short"), T0), Err(AuthError::Validation));
    assert_eq!(AuthError::Validation.status_code(), 400);
    assert!(state.password_reset_repository.find_by_token("p1").unwrap().is_some());
    assert_eq!(reset_password_at(&mut state, reset("nope", "long-enough"), T0), Err(AuthError::NotFound));
}

#[test]
fn reset_now_reads_the_clock_and_draws_a_token() {
    let (mut state, alice, _) = state_with_users();
    let answer = forgot_password(&mut state, forgot("alice@example.com")).unwrap();
    assert_eq!(answer.message, GENERIC);
    let token = match &state.email_service.entries[0] {
        OutboxEntry::PasswordReset { token, .. } => token.clone(),
        other => panic!("unexpected message {:?}", other),
    };
    assert_eq!(token.len(), 32);
    let row = state.password_reset_repository.find_by_token(&token).unwrap().unwrap();
    assert_eq!(row.expires_at, row.created_at + HOUR);
    assert!(reset_password(&mut state, reset(&token, "new-password")).is_ok());
    let after = state.user_repository.find_by_id(alice.id).unwrap().unwrap();
    assert_eq!(verify_password("new-password", &after.password_hash), Ok(true));
}

#[test]
fn reset_verdicts() {
    let row = PasswordResetToken { id: 1, user_id: 9, token: "t".to_string(), expires_at: 50, created_at: 0 };
    assert_eq!(classify_reset(&None, 0), SingleUseVerdict::Unknown);
    assert_eq!(classify_reset(&Some(row.clone()), 50), SingleUseVerdict::Valid { user_id: 9 });
    assert_eq!(classify_reset(&Some(row.clone()), 51), SingleUseVerdict::Expired);
    assert!(row.is_expired_at(51));
    assert!(row.is_expired());
}

#[test]
fn reset_goes_through_exactly_if_the_hasher_answers() {
    let (mut state, alice, bob) = state_with_users();
    state.password_reset_repository.create_token(alice.id, "p1", T0 + HOUR, T0).unwrap();
    state.password_reset_repository.create_token(bob.id, "p-bob", T0 + HOUR, T0).unwrap();

    assert_eq!(
        set_new_password(
            &mut state,
            reset("p1", "new-password"),
            alice.id,
            Err(HashingError::Backend),
            T0 + 1
        ),
        Err(AuthError::Internal)
    );
    assert_eq!(state.user_repository.find_by_id(alice.id).unwrap().unwrap().password_hash, "hash-a");
    assert_eq!(state.password_reset_repository.len(), 2);

    let answer = set_new_password(
        &mut state,
        reset("p1", "new-password"),
        alice.id,
        Ok("new-hash".to_string()),
        T0 + 2,
    );
    assert_eq!(answer, Ok(ResetPasswordResponse { message: PASSWORD_RESET_MESSAGE.to_string() }));
    let after = state.user_repository.find_by_id(alice.id).unwrap().unwrap();
    assert_eq!((after.password_hash.as_str(), after.updated_at), ("new-hash", T0 + 2));
    assert_eq!(state.password_reset_repository.find_by_token("p1").unwrap(), None);
    assert!(state.password_reset_repository.find_by_token("p-bob").unwrap().is_some());
}

#[test]
fn reset_link_now_for_malformed_and_unknown_emails() {
    let (mut state, _, _) = state_with_users();
    assert_eq!(forgot_password(&mut state, forgot("alice")), Err(AuthError::Validation));
    let answer = forgot_password(&mut state, forgot("nobody@example.com")).unwrap();
    assert_eq!(answer.message, GENERIC);
    assert_eq!(state.password_reset_repository.len(), 0);
    assert!(state.email_service.entries.is_empty());
    assert_eq!(reset_password(&mut state, reset("nope", "short")), Err(AuthError::Validation));
    assert_eq!(reset_password(&mut state, reset("nope", "long-enough")), Err(AuthError::NotFound));
}

use realworld_auth::errors::AuthError;
use realworld_auth::handlers::auth::{
    classify_verification, register_with, verify_email_at, SingleUseVerdict, EMAIL_VERIFIED_MESSAGE,
};
use realworld_auth::handlers::verify_email;
use realworld_auth::models::{EmailVerificationToken, User};
use realworld_auth::repositories::{
    EmailVerificationRepository, EmailVerificationRepositoryTrait, PasswordResetRepository,
    RefreshTokenRepository, UserRepository, UserRepositoryTrait,
};
use realworld_auth::schemas::{RegisterUserData, RegisterUserRequest, VerifyEmailResponse};
use realworld_auth::services::Outbox;
use realworld_auth::state::AppState;

type State = AppState<
    UserRepository,
    EmailVerificationRepository,
    PasswordResetRepository,
    RefreshTokenRepository,
    Outbox,
>;

const T0: u64 = 1_700_000_000;
const DAY: u64 = 86_400;

fn state_with_users() -> (State, User, User) {
    let mut state = AppState::new(
        UserRepository::new(),
        EmailVerificationRepository::new(),
        PasswordResetRepository::new(),
        RefreshTokenRepository::new(604_800),
        Outbox::new(),
        "signing-secret".to_string(),
    );
    let alice = state.user_repository.create("alice", "alice@example.com", "hash-a", T0).unwrap();
    let bob = state.user_repository.create("bob", "bob@example.com", "hash-b", T0).unwrap();
    (state, alice, bob)
}

#[test]
fn verification_past_a_day_is_gone_and_the_token_is_removed() {
    // register alice, receive V1, wait past 24 hours, present V1
    let mut state: State = AppState::new(
        UserRepository::new(),
        EmailVerificationRepository::new(),
        PasswordResetRepository::new(),
        RefreshTokenRepository::new(604_800),
        Outbox::new(),
        "signing-secret".to_string(),
    );
    let request = RegisterUserRequest {
        user: RegisterUserData {
            username: "alice".to_string(),
            email: "alice@example.com".to_string(),
            password: "password1234".to_string(),
        },
    };
    register_with(&mut state, request, T0, "V1", "R1").unwrap();
    assert!(state.email_verification_repository.find_by_token("V1").unwrap().is_some());

    let answer = verify_email_at(&mut state, Some("V1"), T0 + DAY + 1);
    assert_eq!(answer, Err(AuthError::Gone));
    assert_eq!(AuthError::Gone.status_code(), 410);
    assert_eq!(state.email_verification_repository.find_by_token("V1").unwrap(), None);
    assert_eq!(state.email_verification_repository.len(), 0);
    let alice = state.user_repository.find_by_email("alice@example.com").unwrap().unwrap();
    assert!(!alice.email_verified);

    // presenting it once more
    assert_eq!(verify_email_at(&mut state, Some("V1"), T0 + DAY + 2), Err(AuthError::NotFound));
}

#[test]
fn verification_marks_the_user_and_works_once() {
    let (mut state, alice, bob) = state_with_users();
    state.email_verification_repository.create_token(alice.id, "v-alice", T0 + DAY, T0).unwrap();
    state.email_verification_repository.create_token(bob.id, "v-bob", T0 + DAY, T0).unwrap();

    // the last second counts
    let answer = verify_email_at(&mut state, Some("v-alice"), T0 + DAY);
    assert_eq!(answer, Ok(VerifyEmailResponse { message: "Email verified successfully!".to_string() }));
    assert_eq!(EMAIL_VERIFIED_MESSAGE, "Email verified successfully!");
    let after = state.user_repository.find_by_id(alice.id).unwrap().unwrap();
    assert!(after.email_verified);
    assert_eq!(after.updated_at, T0 + DAY);
    assert_eq!(after.password_hash, "hash-a");
    assert!(!state.user_repository.find_by_id(bob.id).unwrap().unwrap().email_verified);
    assert_eq!(state.email_verification_repository.find_by_token("v-alice").unwrap(), None);
    assert!(state.email_verification_repository.find_by_token("v-bob").unwrap().is_some());

    // a retry after the success
    assert_eq!(verify_email_at(&mut state, Some("v-alice"), T0 + 10), Err(AuthError::NotFound));
    assert_eq!(AuthError::NotFound.status_code(), 404);
    assert!(state.user_repository.find_by_id(alice.id).unwrap().unwrap().email_verified);
}

#[test]
fn verification_without_or_with_unknown_token() {
    let (mut state, alice, _) = state_with_users();
    state.email_verification_repository.create_token(alice.id, "v1", T0 + DAY, T0).unwrap();
    assert_eq!(verify_email_at(&mut state, None, T0), Err(AuthError::Validation));
    assert_eq!(verify_email_at(&mut state, Some("nope"), T0), Err(AuthError::NotFound));
    assert_eq!(state.email_verification_repository.len(), 1);
    assert!(!state.user_repository.find_by_id(alice.id).unwrap().unwrap().email_verified);
}

#[test]
fn verification_now_reads_the_clock() {
    let (mut state, alice, _) = state_with_users();
    state.email_verification_repository.create_token(alice.id, "old", T0, 0).unwrap();
    state.email_verification_repository.create_token(alice.id, "good", u64::MAX, 0).unwrap();
    assert_eq!(verify_email(&mut state, Some("old")), Err(AuthError::Gone));
    assert!(verify_email(&mut state, Some("good")).is_ok());
    assert!(state.user_repository.find_by_id(alice.id).unwrap().unwrap().email_verified);
}

#[test]
fn single_use_verdicts() {
    let row = EmailVerificationToken { id: 1, user_id: 9, token: "t".to_string(), expires_at: 50, created_at: 0 };
    assert_eq!(classify_verification(&None, 0), SingleUseVerdict::Unknown);
    assert_eq!(classify_verification(&Some(row.clone()), 50), SingleUseVerdict::Valid { user_id: 9 });
    assert_eq!(classify_verification(&Some(row.clone()), 51), SingleUseVerdict::Expired);
    assert!(!row.is_expired_at(50));
    assert!(row.is_expired_at(51));
    assert!(row.is_expired());
}

use realworld_auth::auth::jwt::validate_token_at;
use realworld_auth::auth::password::verify_password;
use realworld_auth::errors::AuthError;
use realworld_auth::auth::password::HashingError;
use realworld_auth::handlers::auth::{
    complete_registration, register_with, VERIFICATION_TOKEN_TTL,
};
use realworld_auth::handlers::register;
use realworld_auth::repositories::{
    EmailVerificationRepository, EmailVerificationRepositoryTrait, PasswordResetRepository,
    RefreshTokenRepository, RefreshTokenRepositoryTrait, UserRepository, UserRepositoryTrait,
};
use realworld_auth::schemas::{RegisterUserData, RegisterUserRequest};
use realworld_auth::services::{Outbox, OutboxEntry};
use realworld_auth::state::AppState;

type State = AppState<
    UserRepository,
    EmailVerificationRepository,
    PasswordResetRepository,
    RefreshTokenRepository,
    Outbox,
>;

const SECRET: &str = "signing-secret";
const T0: u64 = 1_700_000_000;

fn new_state() -> State {
    AppState::new(
        UserRepository::new(),
        EmailVerificationRepository::new(),
        PasswordResetRepository::new(),
        RefreshTokenRepository::new(604_800),
        Outbox::new(),
        SECRET.to_string(),
    )
}

fn request(username: &str, email: &str, password: &str) -> RegisterUserRequest {
    RegisterUserRequest {
        user: RegisterUserData {
            username: username.to_string(),
            email: email.to_string(),
            password: password.to_string(),
        },
    }
}

#[test]
fn registration_creates_user_tokens_and_message() {
    let mut state = new_state();
    let response =
        register_with(&mut state, request("alice", "alice@example.com", "password1234"), T0, "v1", "r1")
            .unwrap();
    assert_eq!(response.user.email, "alice@example.com");
    assert_eq!(response.user.username, "alice");
    assert_eq!(response.user.bio, "");
    assert_eq!(response.user.image, None);
    assert!(!response.user.email_verified);
    assert_eq!(response.refresh_token, "r1");

    let user = state.user_repository.find_by_email("alice@example.com").unwrap().unwrap();
    assert_eq!(user.username, "alice");
    assert_eq!(user.created_at, T0);
    assert!(!user.email_verified);
    assert_ne!(user.password_hash, "password1234");
    assert_eq!(verify_password("password1234", &user.password_hash), Ok(true));

    let v = state.email_verification_repository.find_by_token("v1").unwrap().unwrap();
    assert_eq!(v.user_id, user.id);
    assert_eq!(v.expires_at, T0 + 86_400);
    assert_eq!(VERIFICATION_TOKEN_TTL, 86_400);

    let r = state.refresh_token_repository.find_by_token("r1").unwrap().unwrap();
    assert_eq!(r.user_id, user.id);
    assert!(!r.is_used);
    assert_eq!(r.expires_at, T0 + 604_800);

    assert_eq!(
        state.email_service.entries,
        vec![OutboxEntry::VerifyEmail {
            to: "alice@example.com".to_string(),
            username: "alice".to_string(),
            token: "v1".to_string(),
        }]
    );
    assert_eq!(state.password_reset_repository.len(), 0);
}

#[test]
fn access_token_of_a_registration_names_the_new_user() {
    let mut state = new_state();
    let response =
        register_with(&mut state, request("alice", "alice@example.com", "password1234"), T0, "v1", "r1")
            .unwrap();
    let user = state.user_repository.find_by_username("alice").unwrap().unwrap();
    let claims = validate_token_at(&response.access_token, SECRET, T0 + 60).unwrap();
    assert_eq!(claims.sub, uuid::Uuid::from_u128(user.id).to_string());
    assert_eq!(claims.iat, T0);
    assert_eq!(claims.exp, T0 + 60);
}

#[test]
fn malformed_registration_is_refused_and_changes_nothing() {
    let mut state = new_state();
    for bad in [
        request("al", "alice@example.com", "password1234"),
        request("alice", "not-an-email", "password1234"),
        request("alice", "alice@example.com", "short"),
    ] {
        assert_eq!(register_with(&mut state, bad, T0, "v1", "r1"), Err(AuthError::Validation));
    }
    assert_eq!(state.user_repository.len(), 0);
    assert_eq!(state.email_verification_repository.len(), 0);
    assert_eq!(state.refresh_token_repository.len(), 0);
    assert!(state.email_service.entries.is_empty());
}

#[test]
fn taken_email_or_username_is_a_conflict() {
    let mut state = new_state();
    register_with(&mut state, request("alice", "alice@example.com", "password1234"), T0, "v1", "r1")
        .unwrap();
    assert_eq!(
        register_with(&mut state, request("alice2", "alice@example.com", "password1234"), T0, "v2", "r2"),
        Err(AuthError::Conflict)
    );
    assert_eq!(
        register_with(&mut state, request("alice", "other@example.com", "password1234"), T0, "v3", "r3"),
        Err(AuthError::Conflict)
    );
    assert_eq!(state.user_repository.len(), 1);
    assert_eq!(state.email_verification_repository.len(), 1);
    assert_eq!(state.refresh_token_repository.len(), 1);
    assert_eq!(state.email_service.entries.len(), 1);
}

#[test]
fn failed_delivery_fails_the_registration() {
    let mut state = new_state();
    state.email_service.online = false;
    assert_eq!(
        register_with(&mut state, request("alice", "alice@example.com", "password1234"), T0, "v1", "r1"),
        Err(AuthError::Internal)
    );
    // what was stored before the delivery stays; no session was opened
    assert_eq!(state.user_repository.len(), 1);
    assert_eq!(state.email_verification_repository.len(), 1);
    assert_eq!(state.refresh_token_repository.len(), 0);
    assert!(state.email_service.entries.is_empty());
}

#[test]
fn taken_refresh_token_fails_the_registration() {
    let mut state = new_state();
    state.refresh_token_repository.create_token(99, "r1", T0).unwrap();
    assert_eq!(
        register_with(&mut state, request("alice", "alice@example.com", "password1234"), T0, "v1", "r1"),
        Err(AuthError::Internal)
    );
    assert_eq!(state.refresh_token_repository.len(), 1);
}

#[test]
fn registration_now_draws_fresh_tokens() {
    let mut state = new_state();
    let response = register(&mut state, request("alice", "alice@example.com", "password1234")).unwrap();
    assert_eq!(response.refresh_token.len(), 36);
    let row = state.refresh_token_repository.find_by_token(&response.refresh_token).unwrap().unwrap();
    let user = state.user_repository.find_by_username("alice").unwrap().unwrap();
    assert_eq!(row.user_id, user.id);
    match &state.email_service.entries[0] {
        OutboxEntry::VerifyEmail { token, .. } => {
            assert_eq!(token.len(), 32);
            let v = state.email_verification_repository.find_by_token(token).unwrap().unwrap();
            assert_eq!(v.expires_at, v.created_at + 86_400);
        }
        other => panic!("unexpected message {:?}", other),
    }
}

#[test]
fn registration_goes_through_exactly_if_the_hasher_answers() {
    let mut state = new_state();
    let failed = complete_registration(
        &mut state,
        request("alice", "alice@example.com", "password1234"),
        Err(HashingError::Backend),
        T0,
        "v1",
        "r1",
    );
    assert_eq!(failed, Err(AuthError::Internal));
    assert_eq!(state.user_repository.len(), 0);
    assert_eq!(state.email_verification_repository.len(), 0);
    assert_eq!(state.refresh_token_repository.len(), 0);
    assert!(state.email_service.entries.is_empty());

    let response = complete_registration(
        &mut state,
        request("alice", "alice@example.com", "password1234"),
        Ok("the-hash".to_string()),
        T0,
        "v1",
        "r1",
    )
    .unwrap();
    assert_eq!(response.refresh_token, "r1");
    let user = state.user_repository.find_by_username("alice").unwrap().unwrap();
    assert_eq!(user.password_hash, "the-hash");
    assert!(validate_token_at(&response.access_token, SECRET, T0).is_ok());
    assert_eq!(state.email_service.entries.len(), 1);

    // the store has the last word on a taken email
    let again = complete_registration(
        &mut state,
        request("alice2", "alice@example.com", "password1234"),
        Ok("another-hash".to_string()),
        T0,
        "v2",
        "r2",
    );
    assert_eq!(again, Err(AuthError::Conflict));
    assert_eq!(state.user_repository.len(), 1);
}

#[test]
fn stored_hash_carries_the_work_factor() {
    let mut state = new_state();
    register_with(&mut state, request("alice", "alice@example.com", "password1234"), T0, "v1", "r1")
        .unwrap();
    let user = state.user_repository.find_by_username("alice").unwrap().unwrap();
    assert!(user.password_hash.starts_with("$2b$14$"));
    assert_eq!(user.password_hash.len(), 60);
}

#[test]
fn registration_now_refuses_before_anything_is_looked_at() {
    let mut state = new_state();
    assert_eq!(register(&mut state, request("alice", "alice@example.com", "passwor")), Err(AuthError::Validation));
    assert_eq!(state.user_repository.len(), 0);
    assert!(state.email_service.entries.is_empty());
    state.user_repository.create("alice", "alice@example.com", "h", T0).unwrap();
    assert_eq!(
        register(&mut state, request("alice2", "alice@example.com", "password1234")),
        Err(AuthError::Conflict)
    );
    assert_eq!(
        register(&mut state, request("alice", "other@example.com", "password1234")),
        Err(AuthError::Conflict)
    );
    assert_eq!(state.user_repository.len(), 1);
    assert_eq!(state.email_verification_repository.len(), 0);
    assert_eq!(state.refresh_token_repository.len(), 0);
    assert!(state.email_service.entries.is_empty());
}

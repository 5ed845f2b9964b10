use realworld_auth::auth::jwt::validate_token_at;
use realworld_auth::auth::password::hash_password;
use realworld_auth::errors::AuthError;
use realworld_auth::handlers::auth::{check_credentials, login_with};
use realworld_auth::handlers::login;
use realworld_auth::models::User;
use realworld_auth::repositories::{
    EmailVerificationRepository, PasswordResetRepository, RefreshTokenRepository,
    RefreshTokenRepositoryTrait, UserRepository, UserRepositoryTrait,
};
use realworld_auth::schemas::{LoginUserData, LoginUserRequest};
use realworld_auth::services::Outbox;
use realworld_auth::state::AppState;

type State = AppState<
    UserRepository,
    EmailVerificationRepository,
    PasswordResetRepository,
    RefreshTokenRepository,
    Outbox,
>;

const SECRET: &str = "signing-secret";
const T0: u64 = 1_700_000_000;

fn state_with_alice() -> (State, User) {
    let mut state = AppState::new(
        UserRepository::new(),
        EmailVerificationRepository::new(),
        PasswordResetRepository::new(),
        RefreshTokenRepository::new(604_800),
        Outbox::new(),
        SECRET.to_string(),
    );
    let hash = hash_password("password1234").unwrap();
    let user = state.user_repository.create("alice", "alice@example.com", &hash, T0).unwrap();
    (state, user)
}

fn request(email: &str, password: &str) -> LoginUserRequest {
    LoginUserRequest { user: LoginUserData { email: email.to_string(), password: password.to_string() } }
}

#[test]
fn login_with_the_right_password_opens_a_session() {
    let (mut state, alice) = state_with_alice();
    state.refresh_token_repository.create_token(alice.id, "earlier", T0).unwrap();
    let response = login_with(&mut state, request("alice@example.com", "password1234"), T0 + 5, "r1").unwrap();
    assert_eq!(response.user.username, "alice");
    assert_eq!(response.refresh_token, "r1");
    let claims = validate_token_at(&response.access_token, SECRET, T0 + 5).unwrap();
    assert_eq!(claims.sub, uuid::Uuid::from_u128(alice.id).to_string());
    assert_eq!(claims.exp, T0 + 65);
    let row = state.refresh_token_repository.find_by_token("r1").unwrap().unwrap();
    assert_eq!(row.user_id, alice.id);
    assert!(!row.is_used);
    // the earlier session is untouched
    let earlier = state.refresh_token_repository.find_by_token("earlier").unwrap().unwrap();
    assert!(!earlier.is_used);
    assert_eq!(state.refresh_token_repository.count_for_user(alice.id), 2);
    assert!(state.email_service.entries.is_empty());
}

#[test]
fn wrong_password_and_unknown_email_get_the_same_answer() {
    let (mut state, _) = state_with_alice();
    let wrong = login_with(&mut state, request("alice@example.com", "wrong-password"), T0, "r1");
    let unknown = login_with(&mut state, request("nobody@example.com", "password1234"), T0, "r2");
    assert_eq!(wrong, Err(AuthError::Unauthorized));
    assert_eq!(unknown, Err(AuthError::Unauthorized));
    assert_eq!(wrong, unknown);
    assert_eq!(AuthError::Unauthorized.status_code(), 401);
    assert_eq!(state.refresh_token_repository.len(), 0);
}

#[test]
fn malformed_login_is_refused() {
    let (mut state, _) = state_with_alice();
    assert_eq!(login_with(&mut state, request("alice", "password1234"), T0, "r1"), Err(AuthError::Validation));
    assert_eq!(login_with(&mut state, request("alice@example.com", ""), T0, "r1"), Err(AuthError::Validation));
    assert_eq!(state.refresh_token_repository.len(), 0);
}

#[test]
fn credentials_are_judged_by_the_stored_hash() {
    let (_, alice) = state_with_alice();
    assert_eq!(check_credentials(&None, "password1234"), Err(AuthError::Unauthorized));
    assert_eq!(check_credentials(&Some(alice.clone()), "password1234"), Ok(()));
    let mut broken = alice;
    broken.password_hash = "not a hash".to_string();
    assert_eq!(check_credentials(&Some(broken), "password1234"), Err(AuthError::Internal));
}

#[test]
fn taken_refresh_token_fails_the_login() {
    let (mut state, alice) = state_with_alice();
    state.refresh_token_repository.create_token(alice.id, "r1", T0).unwrap();
    assert_eq!(
        login_with(&mut state, request("alice@example.com", "password1234"), T0, "r1"),
        Err(AuthError::Internal)
    );
    assert_eq!(state.refresh_token_repository.len(), 1);
}

#[test]
fn login_now_draws_a_fresh_refresh_token() {
    let (mut state, alice) = state_with_alice();
    let response = login(&mut state, request("alice@example.com", "password1234")).unwrap();
    assert_eq!(response.refresh_token.len(), 36);
    let row = state.refresh_token_repository.find_by_token(&response.refresh_token).unwrap().unwrap();
    assert_eq!(row.user_id, alice.id);
}

#[test]
fn login_now_refuses_without_touching_the_store() {
    let (mut state, _) = state_with_alice();
    assert_eq!(login(&mut state, request("not-an-email", "password1234")), Err(AuthError::Validation));
    assert_eq!(login(&mut state, request("nobody@example.com", "password1234")), Err(AuthError::Unauthorized));
    assert_eq!(login(&mut state, request("alice@example.com", "wrong-password")), Err(AuthError::Unauthorized));
    assert_eq!(state.refresh_token_repository.len(), 0);
}

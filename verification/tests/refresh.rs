use realworld_auth::auth::jwt::validate_token_at;
use realworld_auth::errors::AuthError;
use realworld_auth::handlers::auth::{
    classify_refresh, complete_refresh, refresh_token_with, revoke_sessions, RefreshVerdict,
};
use realworld_auth::handlers::refresh_token;
use realworld_auth::models::{RefreshToken, User};
use realworld_auth::repositories::{
    EmailVerificationRepository, PasswordResetRepository, RefreshTokenRepository,
    RefreshTokenRepositoryTrait, UserRepository, UserRepositoryTrait,
};
use realworld_auth::schemas::RefreshTokenRequest;
use realworld_auth::services::{Outbox, OutboxEntry};
use realworld_auth::state::AppState;

type State = AppState<
    UserRepository,
    EmailVerificationRepository,
    PasswordResetRepository,
    RefreshTokenRepository,
    Outbox,
>;

const SECRET: &str = "signing-secret";
const T0: u64 = 1_700_000_000;
const TTL: u64 = 604_800;

fn state_with_users() -> (State, User, User) {
    let mut state = AppState::new(
        UserRepository::new(),
        EmailVerificationRepository::new(),
        PasswordResetRepository::new(),
        RefreshTokenRepository::new(TTL),
        Outbox::new(),
        SECRET.to_string(),
    );
    let alice = state.user_repository.create("alice", "alice@example.com", "hash-a", T0).unwrap();
    let bob = state.user_repository.create("bob", "bob@example.com", "hash-b", T0).unwrap();
    (state, alice, bob)
}

fn present(token: &str) -> RefreshTokenRequest {
    RefreshTokenRequest { refresh_token: token.to_string() }
}

fn alert_for_alice() -> OutboxEntry {
    OutboxEntry::SecurityAlert { to: "alice@example.com".to_string(), username: "alice".to_string() }
}

#[test]
fn rotation_consumes_the_token_and_stores_the_replacement() {
    let (mut state, alice, _) = state_with_users();
    state.refresh_token_repository.create_token(alice.id, "r1", T0).unwrap();
    let response = refresh_token_with(&mut state, present("r1"), T0 + 100, "r2").unwrap();
    assert_eq!(response.refresh_token, "r2");
    let claims = validate_token_at(&response.access_token, SECRET, T0 + 100).unwrap();
    assert_eq!(claims.sub, uuid::Uuid::from_u128(alice.id).to_string());
    assert_eq!(claims.iat, T0 + 100);

    let old = state.refresh_token_repository.find_by_token("r1").unwrap().unwrap();
    assert!(old.is_used);
    assert_eq!(old.used_at, Some(T0 + 100));
    let new = state.refresh_token_repository.find_by_token("r2").unwrap().unwrap();
    assert_eq!(new.user_id, alice.id);
    assert!(!new.is_used);
    assert_eq!(new.created_at, T0 + 100);
    assert_eq!(new.expires_at, T0 + 100 + TTL);
    assert!(state.email_service.entries.is_empty());
}

#[test]
fn second_use_of_a_refresh_token_ends_every_session_of_the_user() {
    // login, refresh with R1, refresh with R1 again
    let (mut state, alice, bob) = state_with_users();
    state.refresh_token_repository.create_token(alice.id, "r1", T0).unwrap();
    state.refresh_token_repository.create_token(alice.id, "other-device", T0).unwrap();
    state.refresh_token_repository.create_token(bob.id, "bob-1", T0).unwrap();

    let first = refresh_token_with(&mut state, present("r1"), T0 + 10, "r2").unwrap();
    assert_ne!(first.refresh_token, "r1");
    assert_eq!(state.refresh_token_repository.count_for_user(alice.id), 3);

    let second = refresh_token_with(&mut state, present("r1"), T0 + 20, "r3");
    assert_eq!(second, Err(AuthError::Unauthorized));
    assert_eq!(state.refresh_token_repository.count_for_user(alice.id), 0);
    assert_eq!(state.refresh_token_repository.find_by_token("r2").unwrap(), None);
    assert_eq!(state.refresh_token_repository.find_by_token("r3").unwrap(), None);
    // another user's session is untouched
    assert_eq!(state.refresh_token_repository.count_for_user(bob.id), 1);
    assert_eq!(state.email_service.entries, vec![alert_for_alice()]);

    // and it stays rejected
    assert_eq!(refresh_token_with(&mut state, present("r1"), T0 + 30, "r4"), Err(AuthError::Unauthorized));
    assert_eq!(refresh_token_with(&mut state, present("r2"), T0 + 30, "r5"), Err(AuthError::Unauthorized));
}

#[test]
fn reuse_is_answered_even_when_the_alert_cannot_be_sent() {
    let (mut state, alice, _) = state_with_users();
    state.refresh_token_repository.create_token(alice.id, "r1", T0).unwrap();
    refresh_token_with(&mut state, present("r1"), T0, "r2").unwrap();
    state.email_service.online = false;
    assert_eq!(refresh_token_with(&mut state, present("r1"), T0, "r3"), Err(AuthError::Unauthorized));
    assert_eq!(state.refresh_token_repository.count_for_user(alice.id), 0);
    assert!(state.email_service.entries.is_empty());
}

#[test]
fn unknown_refresh_token_is_rejected() {
    let (mut state, alice, _) = state_with_users();
    state.refresh_token_repository.create_token(alice.id, "r1", T0).unwrap();
    assert_eq!(refresh_token_with(&mut state, present("nope"), T0, "r2"), Err(AuthError::Unauthorized));
    assert_eq!(state.refresh_token_repository.len(), 1);
    assert!(state.email_service.entries.is_empty());
}

#[test]
fn expired_refresh_token_is_removed_and_rejected() {
    let (mut state, alice, _) = state_with_users();
    state.refresh_token_repository.create_token(alice.id, "r1", T0).unwrap();
    state.refresh_token_repository.create_token(alice.id, "r1b", T0 + 50).unwrap();
    // still good at the very second of expiry
    assert_eq!(
        classify_refresh(&state.refresh_token_repository.find_by_token("r1").unwrap(), T0 + TTL),
        RefreshVerdict::Active { user_id: alice.id }
    );
    assert_eq!(
        refresh_token_with(&mut state, present("r1"), T0 + TTL + 1, "r2"),
        Err(AuthError::Unauthorized)
    );
    assert_eq!(state.refresh_token_repository.find_by_token("r1").unwrap(), None);
    // only that token went
    assert!(state.refresh_token_repository.find_by_token("r1b").unwrap().is_some());
    assert!(state.email_service.entries.is_empty());
}

#[test]
fn expired_and_consumed_token_is_only_removed() {
    let (mut state, alice, _) = state_with_users();
    state.refresh_token_repository.create_token(alice.id, "r1", T0).unwrap();
    refresh_token_with(&mut state, present("r1"), T0 + 1, "r2").unwrap();
    assert_eq!(
        refresh_token_with(&mut state, present("r1"), T0 + TTL + 1, "r3"),
        Err(AuthError::Unauthorized)
    );
    assert_eq!(state.refresh_token_repository.find_by_token("r1").unwrap(), None);
    assert!(state.refresh_token_repository.find_by_token("r2").unwrap().is_some());
    assert!(state.email_service.entries.is_empty());
}

#[test]
fn of_two_requests_that_saw_the_token_active_one_wins() {
    let (mut state, alice, _) = state_with_users();
    state.refresh_token_repository.create_token(alice.id, "r1", T0).unwrap();
    // both requests look the token up before either acts
    let seen_by_first = state.refresh_token_repository.find_by_token("r1").unwrap();
    let seen_by_second = state.refresh_token_repository.find_by_token("r1").unwrap();
    assert_eq!(classify_refresh(&seen_by_second, T0), RefreshVerdict::Active { user_id: alice.id });

    let first = complete_refresh(&mut state, "r1", &seen_by_first, T0, "r2");
    let second = complete_refresh(&mut state, "r1", &seen_by_second, T0, "r3");
    assert!(first.is_ok());
    assert_eq!(second, Err(AuthError::Unauthorized));
    assert_eq!(state.refresh_token_repository.count_for_user(alice.id), 0);
    assert_eq!(state.email_service.entries, vec![alert_for_alice()]);
}

#[test]
fn taken_replacement_leaves_the_token_active() {
    let (mut state, alice, bob) = state_with_users();
    state.refresh_token_repository.create_token(alice.id, "r1", T0).unwrap();
    state.refresh_token_repository.create_token(bob.id, "r2", T0).unwrap();
    assert_eq!(refresh_token_with(&mut state, present("r1"), T0, "r2"), Err(AuthError::Internal));
    let r1 = state.refresh_token_repository.find_by_token("r1").unwrap().unwrap();
    assert!(!r1.is_used);
    assert!(refresh_token_with(&mut state, present("r1"), T0, "r3").is_ok());
}

#[test]
fn verdict_looks_at_expiry_before_consumption() {
    let row = RefreshToken {
        id: 1,
        user_id: 7,
        token: "t".to_string(),
        expires_at: 100,
        is_used: true,
        used_at: Some(50),
        created_at: 0,
        last_used_at: 0,
    };
    assert_eq!(classify_refresh(&None, 0), RefreshVerdict::Unknown);
    assert_eq!(classify_refresh(&Some(row.clone()), 100), RefreshVerdict::Reused { user_id: 7 });
    assert_eq!(classify_refresh(&Some(row.clone()), 101), RefreshVerdict::Expired);
    let fresh = RefreshToken { is_used: false, used_at: None, ..row };
    assert_eq!(classify_refresh(&Some(fresh.clone()), 100), RefreshVerdict::Active { user_id: 7 });
    assert!(fresh.is_valid_at(100));
    assert!(!fresh.is_valid_at(101));
    assert!(fresh.is_expired_at(101));
    // the clock of the machine is far past 100
    assert!(fresh.is_expired());
    assert!(!fresh.is_valid());
}

#[test]
fn revoking_sessions_of_a_missing_user_is_a_failure() {
    let (mut state, alice, _) = state_with_users();
    state.refresh_token_repository.create_token(12345, "orphan", T0).unwrap();
    state.refresh_token_repository.create_token(alice.id, "r1", T0).unwrap();
    assert_eq!(revoke_sessions(&mut state, 12345), AuthError::Internal);
    assert_eq!(state.refresh_token_repository.count_for_user(12345), 0);
    assert_eq!(state.refresh_token_repository.count_for_user(alice.id), 1);
}

#[test]
fn refresh_now_draws_a_fresh_replacement() {
    let (mut state, alice, _) = state_with_users();
    let far = RefreshTokenRepository::new(u64::MAX / 2);
    state.refresh_token_repository = far;
    state.refresh_token_repository.create_token(alice.id, "r1", 0).unwrap();
    let response = refresh_token(&mut state, present("r1")).unwrap();
    assert_eq!(response.refresh_token.len(), 36);
    assert_ne!(response.refresh_token, "r1");
    assert_eq!(state.refresh_token_repository.count_for_user(alice.id), 2);
}

#[test]
fn refresh_now_refuses_unknown_and_consumed_tokens() {
    let (mut state, alice, _) = state_with_users();
    state.refresh_token_repository = RefreshTokenRepository::new(u64::MAX / 2);
    state.refresh_token_repository.create_token(alice.id, "r1", 0).unwrap();
    assert_eq!(refresh_token(&mut state, present("nope")), Err(AuthError::Unauthorized));
    assert_eq!(state.refresh_token_repository.len(), 1);
    assert!(state.email_service.entries.is_empty());
    assert!(refresh_token(&mut state, present("r1")).is_ok());
    assert_eq!(refresh_token(&mut state, present("r1")), Err(AuthError::Unauthorized));
    assert_eq!(state.refresh_token_repository.count_for_user(alice.id), 0);
}

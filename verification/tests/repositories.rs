use realworld_auth::errors::StoreError;
use realworld_auth::repositories::{
    EmailVerificationRepository, EmailVerificationRepositoryTrait, PasswordResetRepository,
    PasswordResetRepositoryTrait, RefreshTokenRepository, RefreshTokenRepositoryTrait,
    UserRepository, UserRepositoryTrait,
};

#[test]
fn users_are_created_with_fresh_ids_and_unique_identities() {
    let mut users = UserRepository::new();
    let alice = users.create("alice", "alice@example.com", "h1", 10).unwrap();
    let bob = users.create("bob", "bob@example.com", "h2", 11).unwrap();
    assert_ne!(alice.id, bob.id);
    assert_eq!(alice.username, "alice");
    assert_eq!(alice.email, "alice@example.com");
    assert_eq!(alice.password_hash, "h1");
    assert!(!alice.email_verified);
    assert_eq!(alice.bio, None);
    assert_eq!(alice.image, None);
    assert_eq!((alice.created_at, alice.updated_at), (10, 10));
    assert_eq!(users.create("alice", "a2@example.com", "h", 12), Err(StoreError::Conflict));
    assert_eq!(users.create("carol", "bob@example.com", "h", 12), Err(StoreError::Conflict));
    assert_eq!(users.len(), 2);
}

#[test]
fn users_are_found_by_id_email_and_username() {
    let mut users = UserRepository::new();
    let alice = users.create("alice", "alice@example.com", "h1", 10).unwrap();
    assert_eq!(users.find_by_id(alice.id), Ok(Some(alice.clone())));
    assert_eq!(users.find_by_email("alice@example.com"), Ok(Some(alice.clone())));
    assert_eq!(users.find_by_username("alice"), Ok(Some(alice.clone())));
    assert_eq!(users.find_by_id(alice.id + 1), Ok(None));
    assert_eq!(users.find_by_email("alice"), Ok(None));
    assert_eq!(users.find_by_username("alice@example.com"), Ok(None));
}

#[test]
fn update_changes_only_what_is_given() {
    let mut users = UserRepository::new();
    let alice = users.create("alice", "alice@example.com", "h1", 10).unwrap();
    let bob = users.create("bob", "bob@example.com", "h2", 10).unwrap();

    let after = users.update(alice.id, None, None, Some("hi"), None, 20).unwrap().unwrap();
    assert_eq!(after.bio, Some("hi".to_string()));
    assert_eq!(after.username, "alice");
    assert_eq!(after.email, "alice@example.com");
    assert_eq!(after.image, None);
    assert_eq!((after.created_at, after.updated_at), (10, 20));

    let after = users
        .update(alice.id, Some("alicia"), Some("alicia@example.com"), None, Some("http://x/y.png"), 30)
        .unwrap()
        .unwrap();
    assert_eq!(after.username, "alicia");
    assert_eq!(after.email, "alicia@example.com");
    assert_eq!(after.bio, Some("hi".to_string()));
    assert_eq!(after.image, Some("http://x/y.png".to_string()));
    assert_eq!(users.find_by_username("alice"), Ok(None));
    assert_eq!(users.find_by_id(alice.id), Ok(Some(after)));

    // keeping one's own name is no conflict, taking another's is
    assert!(users.update(alice.id, Some("alicia"), None, None, None, 40).unwrap().is_some());
    assert_eq!(users.update(alice.id, Some("bob"), None, None, None, 40), Err(StoreError::Conflict));
    assert_eq!(users.update(alice.id, None, Some("bob@example.com"), None, None, 40), Err(StoreError::Conflict));
    assert_eq!(users.update(999, Some("zed"), None, None, None, 40), Ok(None));
    assert_eq!(users.find_by_id(bob.id), Ok(Some(bob)));
}

#[test]
fn password_and_verification_flag_are_set_in_place() {
    let mut users = UserRepository::new();
    let alice = users.create("alice", "alice@example.com", "h1", 10).unwrap();
    assert_eq!(users.update_password(alice.id, "h2", 20), Ok(()));
    assert_eq!(users.verify_user_email(alice.id, 30), Ok(()));
    let after = users.find_by_id(alice.id).unwrap().unwrap();
    assert_eq!(after.password_hash, "h2");
    assert!(after.email_verified);
    assert_eq!(after.updated_at, 30);
    // verifying twice keeps it verified; a missing user is no failure
    assert_eq!(users.verify_user_email(alice.id, 31), Ok(()));
    assert!(users.find_by_id(alice.id).unwrap().unwrap().email_verified);
    assert_eq!(users.update_password(999, "h", 1), Ok(()));
    assert_eq!(users.verify_user_email(999, 1), Ok(()));
    assert_eq!(users.len(), 1);
}

#[test]
fn verification_tokens_are_unique_and_deleted_by_text() {
    let mut repo = EmailVerificationRepository::new();
    let row = repo.create_token(1, "v1", 100, 10).unwrap();
    assert_eq!((row.user_id, row.token.as_str(), row.expires_at, row.created_at), (1, "v1", 100, 10));
    assert_eq!(repo.create_token(2, "v1", 100, 10), Err(StoreError::Conflict));
    assert_eq!(repo.find_by_token("v1"), Ok(Some(row)));
    assert_eq!(repo.find_by_token("v2"), Ok(None));
    assert_eq!(repo.delete_token("v2"), Ok(()));
    assert_eq!(repo.len(), 1);
    assert_eq!(repo.delete_token("v1"), Ok(()));
    assert_eq!(repo.find_by_token("v1"), Ok(None));
    assert_eq!(repo.len(), 0);
    // the text is free again
    assert!(repo.create_token(2, "v1", 100, 10).is_ok());
}

#[test]
fn reset_tokens_of_one_user_are_deleted_together() {
    let mut repo = PasswordResetRepository::new();
    repo.create_token(1, "a1", 100, 10).unwrap();
    let kept = repo.create_token(2, "b1", 100, 10).unwrap();
    repo.create_token(1, "a2", 100, 10).unwrap();
    assert_eq!(repo.create_token(1, "b1", 100, 10), Err(StoreError::Conflict));
    assert_eq!(repo.delete_all_user_tokens(1), Ok(()));
    assert_eq!(repo.find_by_token("a1"), Ok(None));
    assert_eq!(repo.find_by_token("a2"), Ok(None));
    assert_eq!(repo.find_by_token("b1"), Ok(Some(kept)));
    assert_eq!(repo.len(), 1);
    assert_eq!(repo.delete_all_user_tokens(7), Ok(()));
    assert_eq!(repo.len(), 1);
    assert_eq!(repo.delete_token("b1"), Ok(()));
    assert_eq!(repo.len(), 0);
}

#[test]
fn refresh_tokens_are_consumed_once() {
    let mut repo = RefreshTokenRepository::new(1000);
    let row = repo.create_token(1, "r1", 10).unwrap();
    assert_eq!(row.expires_at, 1010);
    assert_eq!((row.is_used, row.used_at, row.created_at, row.last_used_at), (false, None, 10, 10));
    assert_eq!(repo.create_token(2, "r1", 10), Err(StoreError::Conflict));

    assert_eq!(repo.mark_token_as_used("r1", 20), Ok(true));
    assert_eq!(repo.mark_token_as_used("r1", 30), Ok(false));
    assert_eq!(repo.mark_token_as_used("nope", 30), Ok(false));
    let used = repo.find_by_token("r1").unwrap().unwrap();
    assert!(used.is_used);
    assert_eq!(used.used_at, Some(20));

    assert_eq!(repo.update_last_used("r1", 40), Ok(()));
    assert_eq!(repo.update_last_used("nope", 40), Ok(()));
    let seen = repo.find_by_token("r1").unwrap().unwrap();
    assert_eq!(seen.last_used_at, 40);
    assert_eq!(seen.used_at, Some(20));
}

#[test]
fn rotation_is_all_or_nothing() {
    let mut repo = RefreshTokenRepository::new(1000);
    repo.create_token(1, "r1", 10).unwrap();
    repo.create_token(2, "taken", 10).unwrap();

    assert_eq!(repo.rotate_token("r1", "taken", 20), Err(StoreError::Conflict));
    assert_eq!(repo.rotate_token("r1", "r1", 20), Err(StoreError::Conflict));
    assert!(!repo.find_by_token("r1").unwrap().unwrap().is_used);
    assert_eq!(repo.rotate_token("nope", "r2", 20), Ok(None));
    assert_eq!(repo.find_by_token("r2"), Ok(None));

    let new = repo.rotate_token("r1", "r2", 20).unwrap().unwrap();
    assert_eq!((new.user_id, new.token.as_str(), new.is_used, new.expires_at), (1, "r2", false, 1020));
    assert_eq!(repo.find_by_token("r1").unwrap().unwrap().used_at, Some(20));
    // a consumed token does not rotate
    assert_eq!(repo.rotate_token("r1", "r3", 30), Ok(None));
    assert_eq!(repo.find_by_token("r3"), Ok(None));
    assert_eq!(repo.len(), 3);
    assert_eq!(repo.count_for_user(1), 2);
    assert_eq!(repo.count_for_user(2), 1);
    assert_eq!(repo.count_for_user(3), 0);
}

#[test]
fn refresh_tokens_of_one_user_are_deleted_together() {
    let mut repo = RefreshTokenRepository::new(1000);
    repo.create_token(1, "a1", 10).unwrap();
    repo.create_token(2, "b1", 10).unwrap();
    repo.create_token(1, "a2", 10).unwrap();
    assert_eq!(repo.delete_token("a1"), Ok(()));
    assert_eq!(repo.count_for_user(1), 1);
    assert_eq!(repo.delete_all_user_tokens(1), Ok(()));
    assert_eq!(repo.count_for_user(1), 0);
    assert_eq!(repo.count_for_user(2), 1);
    assert!(repo.find_by_token("b1").unwrap().is_some());
}

#[test]
fn lifetime_ends_with_time() {
    let mut repo = RefreshTokenRepository::new(1000);
    let late = repo.create_token(1, "r1", u64::MAX - 999).unwrap();
    assert_eq!(late.expires_at, u64::MAX);
    let exact = repo.create_token(1, "r2", u64::MAX - 1000).unwrap();
    assert_eq!(exact.expires_at, u64::MAX);
    let early = repo.create_token(1, "r3", u64::MAX - 1001).unwrap();
    assert_eq!(early.expires_at, u64::MAX - 1);
    let rotated = repo.rotate_token("r1", "r4", u64::MAX).unwrap().unwrap();
    assert_eq!(rotated.expires_at, u64::MAX);
    assert!(!rotated.is_expired_at(u64::MAX));
}

#[test]
fn rows_are_numbered_in_turn() {
    let mut users = UserRepository::new();
    let a = users.create("alice", "alice@example.com", "h", 0).unwrap();
    let b = users.create("bob", "bob@example.com", "h", 0).unwrap();
    assert_eq!((a.id, b.id), (1, 2));
    let mut repo = PasswordResetRepository::new();
    let first = repo.create_token(a.id, "p1", 10, 0).unwrap();
    repo.delete_token("p1").unwrap();
    let second = repo.create_token(a.id, "p1", 10, 0).unwrap();
    assert_eq!((first.id, second.id), (1, 2));
    // a refused token takes no number
    assert!(repo.create_token(a.id, "p1", 10, 0).is_err());
    assert_eq!(repo.create_token(a.id, "p2", 10, 0).unwrap().id, 3);

    let mut verifications = EmailVerificationRepository::new();
    assert_eq!(verifications.create_token(a.id, "v1", 10, 0).unwrap().id, 1);
    assert!(verifications.create_token(b.id, "v1", 10, 0).is_err());
    assert_eq!(verifications.create_token(b.id, "v2", 10, 0).unwrap().id, 2);

    let mut sessions = RefreshTokenRepository::new(100);
    assert_eq!(sessions.create_token(a.id, "r1", 0).unwrap().id, 1);
    assert_eq!(sessions.rotate_token("r1", "r2", 1).unwrap().unwrap().id, 2);
    assert_eq!(sessions.rotate_token("r1", "r3", 2).unwrap(), None);
    assert_eq!(sessions.create_token(a.id, "r3", 3).unwrap().id, 3);
}

use realworld_auth::auth::middleware::RequireAuth;
use realworld_auth::handlers::auth::LOGGED_OUT_MESSAGE;
use realworld_auth::handlers::{current_user, logout};
use realworld_auth::models::User;
use realworld_auth::repositories::{
    EmailVerificationRepository, PasswordResetRepository, RefreshTokenRepository,
    RefreshTokenRepositoryTrait, UserRepository,
};
use realworld_auth::schemas::auth_schemas::UserResponse;
use realworld_auth::schemas::{LogoutRequest, LogoutResponse, UserData};
use realworld_auth::services::Outbox;
use realworld_auth::state::AppState;

#[test]
fn logout_removes_only_the_presented_token() {
    let mut state = AppState::new(
        UserRepository::new(),
        EmailVerificationRepository::new(),
        PasswordResetRepository::new(),
        RefreshTokenRepository::new(100),
        Outbox::new(),
        "s".to_string(),
    );
    state.refresh_token_repository.create_token(1, "phone", 0).unwrap();
    state.refresh_token_repository.create_token(1, "laptop", 0).unwrap();
    let answer = logout(&mut state, LogoutRequest { refresh_token: "phone".to_string() });
    assert_eq!(answer, Ok(LogoutResponse { message: "Logged out successfully".to_string() }));
    assert_eq!(LOGGED_OUT_MESSAGE, "Logged out successfully");
    assert_eq!(state.refresh_token_repository.find_by_token("phone").unwrap(), None);
    assert!(state.refresh_token_repository.find_by_token("laptop").unwrap().is_some());
    // logging out twice, or with an unknown token, is fine
    assert!(logout(&mut state, LogoutRequest { refresh_token: "phone".to_string() }).is_ok());
    assert_eq!(state.refresh_token_repository.len(), 1);
}

#[test]
fn current_user_shows_the_public_view() {
    let user = User {
        id: 5,
        username: "alice".to_string(),
        email: "alice@example.com".to_string(),
        password_hash: "secret-hash".to_string(),
        email_verified: true,
        bio: Some("hello".to_string()),
        image: Some("https://example.com/a.png".to_string()),
        created_at: 1,
        updated_at: 2,
    };
    assert_eq!(
        current_user(RequireAuth(user)),
        Ok(UserResponse {
            user: UserData {
                email: "alice@example.com".to_string(),
                username: "alice".to_string(),
                bio: "hello".to_string(),
                image: Some("https://example.com/a.png".to_string()),
                email_verified: true,
            }
        })
    );
}

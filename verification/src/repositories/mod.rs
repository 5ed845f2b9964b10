//! The credential store: its contract, and repositories kept in memory that
//! meet it.

pub mod email_verification_repository;
pub mod password_reset_repository;
pub mod refresh_token_repository;
pub mod table;
pub mod traits;
pub mod user_repository;

pub use email_verification_repository::EmailVerificationRepository;
pub use password_reset_repository::PasswordResetRepository;
pub use refresh_token_repository::RefreshTokenRepository;
pub use traits::{
    EmailVerificationRepositoryTrait, PasswordResetRepositoryTrait, RefreshTokenRepositoryTrait,
    UserRepositoryTrait,
};
pub use user_repository::UserRepository;

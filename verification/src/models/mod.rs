//! Persisted records: users and the three kinds of token.

pub mod email_verification_token;
pub mod password_reset_token;
pub mod refresh_token;
pub mod user;

pub use email_verification_token::{EmailVerificationToken, EmailVerificationTokenView};
pub use password_reset_token::{PasswordResetToken, PasswordResetTokenView};
pub use refresh_token::{RefreshToken, RefreshTokenView};
pub use user::{User, UserView};

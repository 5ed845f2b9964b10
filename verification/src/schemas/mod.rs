//! Request and response bodies of the credential endpoints.

pub mod auth_schemas;
pub mod password_reset_schemas;
pub mod token_schemas;
pub mod user_schemas;

pub use auth_schemas::{
    LoginResponse, LoginResponseView, LoginUserData, LoginUserRequest, RegisterUserData,
    RegisterUserRequest, UserData, UserDataView, VerifyEmailResponse,
};
pub use password_reset_schemas::{
    ForgotPasswordRequest, ForgotPasswordResponse, ResetPasswordRequest, ResetPasswordResponse,
};
pub use token_schemas::{
    LogoutRequest, LogoutResponse, RefreshTokenRequest, RefreshTokenResponse,
    RefreshTokenResponseView,
};
pub use user_schemas::{CreateUserRequest, UpdateUserRequest, UserResponse, UserResponseView};

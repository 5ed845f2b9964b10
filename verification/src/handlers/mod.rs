//! The credential endpoints.

pub mod auth;
pub mod flow;

pub use auth::{
    current_user, forgot_password, login, logout, refresh_token, register, reset_password,
    verify_email,
};

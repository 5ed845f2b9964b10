//! Credential lifecycle engine: access tokens, rotating refresh tokens with
//! reuse detection, and single-use tokens for email verification and
//! password reset.

pub mod auth;
mod clock;
pub mod errors;
pub mod handlers;
pub mod laws;
pub mod models;
pub mod repositories;
pub mod schemas;
pub mod services;
pub mod state;
pub mod utils;
pub mod validation;

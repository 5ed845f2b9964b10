//! Helpers shared by the endpoints.

pub mod token_generator;

pub use token_generator::generate_verification_token;

//! Password hashing, access-token codec and opaque token generation.

pub mod jwt;
pub mod middleware;
pub mod password;
pub mod tokens;

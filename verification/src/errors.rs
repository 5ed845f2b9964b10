//! Outcomes that the endpoints report, and the page languages.

use vstd::prelude::*;

verus! {

/// Language of a rendered page.
#[derive(Clone, Copy, Debug, PartialEq, Eq, Structural)]
#[allow(non_camel_case_types)]
pub enum Lang {
    en,
    de,
    fr,
}

impl Default for Lang {
    fn default() -> (r: Self)
        ensures
            r == Lang::en,
    {
        Lang::en
    }
}

impl Lang {
    /// The language code.
    pub open spec fn code(&self) -> Seq<char> {
        match self {
            Lang::en => "en"@,
            Lang::de => "de"@,
            Lang::fr => "fr"@,
        }
    }

    /// The language code, as it appears in a path.
    pub fn as_str(&self) -> (r: &'static str)
        ensures
            r@ == self.code(),
    {
        match self {
            Lang::en => "en",
            Lang::de => "de",
            Lang::fr => "fr",
        }
    }
}

/// Why the credential store refused an operation.
#[derive(Clone, Copy, Debug, PartialEq, Eq, Structural)]
pub enum StoreError {
    /// A unique field (email, username, token) is already taken.
    Conflict,
    /// The store could not carry out the operation.
    Unavailable,
}

/// Why an endpoint refused a request. Each kind answers with one HTTP
/// status; `Unauthorized` never says which check failed.
#[derive(Clone, Copy, Debug, PartialEq, Eq, Structural)]
pub enum AuthError {
    /// The request body is malformed.
    Validation,
    /// Bad credentials, or an unknown, expired or reused token presented as
    /// a credential.
    Unauthorized,
    /// A unique field is already taken.
    Conflict,
    /// The single-use token is unknown.
    NotFound,
    /// The single-use token had expired; it has been removed.
    Gone,
    /// The store, the codec or the notification gateway failed.
    Internal,
}

impl AuthError {
    /// HTTP status of each kind.
    pub open spec fn status(&self) -> u16 {
        match self {
            AuthError::Validation => 400,
            AuthError::Unauthorized => 401,
            AuthError::Conflict => 409,
            AuthError::NotFound => 404,
            AuthError::Gone => 410,
            AuthError::Internal => 500,
        }
    }

    /// HTTP status with which the request is answered.
    pub fn status_code(&self) -> (r: u16)
        ensures
            r == self.status(),
    {
        match self {
            AuthError::Validation => 400,
            AuthError::Unauthorized => 401,
            AuthError::Conflict => 409,
            AuthError::NotFound => 404,
            AuthError::Gone => 410,
            AuthError::Internal => 500,
        }
    }
}

} // verus!

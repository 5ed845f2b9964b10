//! Bodies of the password reset endpoints.

use crate::validation::{email_check, email_well_formed, has_length_at_least, FieldError};
use vstd::prelude::*;

verus! {

/// Asks for a reset link to be sent to `email`.
#[derive(Debug, PartialEq, Eq)]
pub struct ForgotPasswordRequest {
    pub email: String,
}

/// Answer to a [`ForgotPasswordRequest`].
#[derive(Debug, PartialEq, Eq)]
pub struct ForgotPasswordResponse {
    pub message: String,
}

/// Presents a reset token together with the new password.
#[derive(Debug, PartialEq, Eq)]
pub struct ResetPasswordRequest {
    pub token: String,
    pub new_password: String,
}

/// Answer to a [`ResetPasswordRequest`].
#[derive(Debug, PartialEq, Eq)]
pub struct ResetPasswordResponse {
    pub message: String,
}

impl ForgotPasswordRequest {
    /// Well-formed: the email is an email address.
    pub open spec fn is_valid(&self) -> bool {
        email_well_formed(self.email@)
    }

    /// Checks the shape of the fields; lists every broken rule.
    pub fn validate(&self) -> (r: Result<(), Vec<FieldError>>)
        ensures
            r is Ok <==> self.is_valid(),
            r matches Err(errors) ==> errors@ == seq![FieldError::EmailFormat],
    {
        if email_check(self.email.as_str()) {
            Ok(())
        } else {
            let mut errors: Vec<FieldError> = Vec::new();
            errors.push(FieldError::EmailFormat);
            Err(errors)
        }
    }
}

impl ResetPasswordRequest {
    /// Well-formed: the new password has at least 8 characters.
    pub open spec fn is_valid(&self) -> bool {
        self.new_password@.len() >= 8
    }

    /// Checks the shape of the fields; lists every broken rule.
    pub fn validate(&self) -> (r: Result<(), Vec<FieldError>>)
        ensures
            r is Ok <==> self.is_valid(),
            r matches Err(errors) ==> errors@ == seq![FieldError::PasswordTooShort],
    {
        if has_length_at_least(self.new_password.as_str(), 8) {
            Ok(())
        } else {
            let mut errors: Vec<FieldError> = Vec::new();
            errors.push(FieldError::PasswordTooShort);
            Err(errors)
        }
    }
}

} // verus!

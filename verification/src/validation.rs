//! Shape checks on request fields.

use vstd::prelude::*;
use vstd::string::*;

verus! {

/// A rule that a request field has broken.
#[derive(Clone, Copy, Debug, PartialEq, Eq, Structural)]
pub enum FieldError {
    /// `username` is shorter than 3 or longer than 50 characters.
    UsernameLength,
    /// `email` is not an email address.
    EmailFormat,
    /// `password` is shorter than 8 characters.
    PasswordTooShort,
    /// `password` is empty.
    PasswordRequired,
    /// `bio` is longer than 500 characters.
    BioTooLong,
    /// `image` is not a URL.
    ImageUrl,
}

impl FieldError {
    /// The text shown to the client for this rule.
    pub fn message(&self) -> (r: &'static str)
        ensures
            r@ == self.message_spec(),
    {
        match self {
            FieldError::UsernameLength => "Username must be between 3 and 50 characters",
            FieldError::EmailFormat => "Invalid email format",
            FieldError::PasswordTooShort => "Password must be at least 8 characters",
            FieldError::PasswordRequired => "Password is required",
            FieldError::BioTooLong => "Bio cannot exceed 500 characters",
            FieldError::ImageUrl => "Image must be a valid URL",
        }
    }

    /// The text of each rule.
    pub open spec fn message_spec(&self) -> Seq<char> {
        match self {
            FieldError::UsernameLength => "Username must be between 3 and 50 characters"@,
            FieldError::EmailFormat => "Invalid email format"@,
            FieldError::PasswordTooShort => "Password must be at least 8 characters"@,
            FieldError::PasswordRequired => "Password is required"@,
            FieldError::BioTooLong => "Bio cannot exceed 500 characters"@,
            FieldError::ImageUrl => "Image must be a valid URL"@,
        }
    }
}

/// Whether `validator` accepts the text as an email address (the HTML5
/// grammar, with internationalised domains converted first).
pub uninterp spec fn email_well_formed(text: Seq<char>) -> bool;

/// Whether `validator` accepts the text as a URL, that is whether it parses
/// as one.
pub uninterp spec fn url_well_formed(text: Seq<char>) -> bool;

/// Calls `validator::ValidateEmail::validate_email` on the text. The answer
/// depends on the text alone.
#[verifier::external_body]
pub(crate) fn email_check(text: &str) -> (r: bool)
    ensures
        r == email_well_formed(text@),
{
    validator::ValidateEmail::validate_email(&text)
}

/// Calls `validator::ValidateUrl::validate_url` on the text. The answer
/// depends on the text alone.
#[verifier::external_body]
pub(crate) fn url_check(text: &str) -> (r: bool)
    ensures
        r == url_well_formed(text@),
{
    validator::ValidateUrl::validate_url(&text)
}

/// Length rule: the number of characters lies in `min..=max`.
pub open spec fn length_within(text: Seq<char>, min: nat, max: nat) -> bool {
    min <= text.len() <= max
}

/// Whether `text` has at least `min` and at most `max` characters.
pub fn has_length_within(text: &str, min: usize, max: usize) -> (r: bool)
    ensures
        r == length_within(text@, min as nat, max as nat),
{
    let n = text.unicode_len();
    min <= n && n <= max
}

/// Whether `text` has at least `min` characters.
pub fn has_length_at_least(text: &str, min: usize) -> (r: bool)
    ensures
        r == (text@.len() >= min),
{
    text.unicode_len() >= min
}

/// Whether `text` has at most `max` characters.
pub fn has_length_at_most(text: &str, max: usize) -> (r: bool)
    ensures
        r == (text@.len() <= max),
{
    text.unicode_len() <= max
}

} // verus!

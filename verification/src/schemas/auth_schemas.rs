//! Registration and login bodies, and the public view of a user.

use crate::models::user::{opt_text, User, UserView};
use crate::validation::{
    email_check, email_well_formed, has_length_at_least, has_length_within, length_within,
    FieldError,
};
use vstd::prelude::*;

verus! {

/// Body of a registration request.
#[derive(Debug, PartialEq, Eq)]
pub struct RegisterUserRequest {
    pub user: RegisterUserData,
}

/// What a new user supplies.
#[derive(Debug, PartialEq, Eq)]
pub struct RegisterUserData {
    pub username: String,
    pub email: String,
    pub password: String,
}

/// Body of a login request.
#[derive(Debug, PartialEq, Eq)]
pub struct LoginUserRequest {
    pub user: LoginUserData,
}

/// Login credentials.
#[derive(Debug, PartialEq, Eq)]
pub struct LoginUserData {
    pub email: String,
    pub password: String,
}

/// Answer to a successful registration or login.
#[derive(Debug, PartialEq, Eq)]
pub struct LoginResponse {
    pub user: UserData,
    pub access_token: String,
    pub refresh_token: String,
}

/// Answer to a request for the current user.
#[derive(Debug, PartialEq, Eq)]
pub struct UserResponse {
    pub user: UserData,
}

/// Answer to a successful email verification.
#[derive(Debug, PartialEq, Eq)]
pub struct VerifyEmailResponse {
    pub message: String,
}

/// The part of a user that is shown to clients.
#[derive(Debug, PartialEq, Eq)]
pub struct UserData {
    pub email: String,
    pub username: String,
    pub bio: String,
    pub image: Option<String>,
    pub email_verified: bool,
}

/// Mathematical value of a [`UserData`].
pub struct UserDataView {
    pub email: Seq<char>,
    pub username: Seq<char>,
    pub bio: Seq<char>,
    pub image: Option<Seq<char>>,
    pub email_verified: bool,
}

impl View for UserData {
    type V = UserDataView;

    open spec fn view(&self) -> UserDataView {
        UserDataView {
            email: self.email@,
            username: self.username@,
            bio: self.bio@,
            image: opt_text(self.image),
            email_verified: self.email_verified,
        }
    }
}

/// Mathematical value of a [`LoginResponse`].
pub struct LoginResponseView {
    pub user: UserDataView,
    pub access_token: Seq<char>,
    pub refresh_token: Seq<char>,
}

impl View for LoginResponse {
    type V = LoginResponseView;

    open spec fn view(&self) -> LoginResponseView {
        LoginResponseView {
            user: self.user@,
            access_token: self.access_token@,
            refresh_token: self.refresh_token@,
        }
    }
}

/// The public view of a user: a missing bio is shown as the empty text, and
/// neither the id nor the password hash is shown.
pub open spec fn public_view(user: UserView) -> UserDataView {
    UserDataView {
        email: user.email,
        username: user.username,
        bio: match user.bio {
            Some(b) => b,
            None => Seq::empty(),
        },
        image: user.image,
        email_verified: user.email_verified,
    }
}

impl UserData {
    /// The public view of `user`.
    pub fn from_user(user: User) -> (r: Self)
        ensures
            r@ == public_view(user@),
    {
        let bio = match user.bio {
            Some(b) => b,
            None => String::new(),
        };
        UserData {
            email: user.email,
            username: user.username,
            bio,
            image: user.image,
            email_verified: user.email_verified,
        }
    }
}

/// The rules that a registration breaks, in the order of its fields.
pub open spec fn registration_errors(
    username: Seq<char>,
    email: Seq<char>,
    password: Seq<char>,
) -> Seq<FieldError> {
    let a = if length_within(username, 3, 50) {
        Seq::<FieldError>::empty()
    } else {
        seq![FieldError::UsernameLength]
    };
    let b = if email_well_formed(email) {
        a
    } else {
        a.push(FieldError::EmailFormat)
    };
    if password.len() >= 8 {
        b
    } else {
        b.push(FieldError::PasswordTooShort)
    }
}

/// The rules that a login breaks, in the order of its fields.
pub open spec fn login_errors(email: Seq<char>, password: Seq<char>) -> Seq<FieldError> {
    let a = if email_well_formed(email) {
        Seq::<FieldError>::empty()
    } else {
        seq![FieldError::EmailFormat]
    };
    if password.len() >= 1 {
        a
    } else {
        a.push(FieldError::PasswordRequired)
    }
}

impl RegisterUserData {
    /// Well-formed: the username has 3 to 50 characters, the email is an
    /// email address and the password has at least 8 characters.
    pub open spec fn is_valid(&self) -> bool {
        registration_errors(self.username@, self.email@, self.password@).len() == 0
    }

    /// Checks the shape of the fields; lists every broken rule.
    pub fn validate(&self) -> (r: Result<(), Vec<FieldError>>)
        ensures
            r is Ok <==> self.is_valid(),
            r matches Err(errors) ==> errors@ == registration_errors(
                self.username@,
                self.email@,
                self.password@,
            ),
    {
        let mut errors: Vec<FieldError> = Vec::new();
        if !has_length_within(self.username.as_str(), 3, 50) {
            errors.push(FieldError::UsernameLength);
        }
        if !email_check(self.email.as_str()) {
            errors.push(FieldError::EmailFormat);
        }
        if !has_length_at_least(self.password.as_str(), 8) {
            errors.push(FieldError::PasswordTooShort);
        }
        if errors.len() == 0 {
            Ok(())
        } else {
            Err(errors)
        }
    }
}

impl LoginUserData {
    /// Well-formed: the email is an email address and the password is not
    /// empty.
    pub open spec fn is_valid(&self) -> bool {
        login_errors(self.email@, self.password@).len() == 0
    }

    /// Checks the shape of the fields; lists every broken rule.
    pub fn validate(&self) -> (r: Result<(), Vec<FieldError>>)
        ensures
            r is Ok <==> self.is_valid(),
            r matches Err(errors) ==> errors@ == login_errors(self.email@, self.password@),
    {
        let mut errors: Vec<FieldError> = Vec::new();
        if !email_check(self.email.as_str()) {
            errors.push(FieldError::EmailFormat);
        }
        if !has_length_at_least(self.password.as_str(), 1) {
            errors.push(FieldError::PasswordRequired);
        }
        if errors.len() == 0 {
            Ok(())
        } else {
            Err(errors)
        }
    }
}

} // verus!

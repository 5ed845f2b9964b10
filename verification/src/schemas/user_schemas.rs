//! Bodies for creating and updating a user, and the full user record as it
//! is shown to its owner.

use crate::models::user::{opt_text, User, UserView};
use crate::schemas::auth_schemas::registration_errors;
use crate::validation::{
    email_check, email_well_formed, has_length_at_least, has_length_at_most, has_length_within,
    length_within, url_check, url_well_formed, FieldError,
};
use vstd::prelude::*;

verus! {

/// What is needed to create a user.
#[derive(Debug, PartialEq, Eq)]
pub struct CreateUserRequest {
    pub username: String,
    pub email: String,
    pub password: String,
}

/// Changes to a user; a field that is `None` is left as it is.
#[derive(Debug, PartialEq, Eq)]
pub struct UpdateUserRequest {
    pub username: Option<String>,
    pub email: Option<String>,
    pub bio: Option<String>,
    pub image: Option<String>,
}

/// A user as shown to its owner: everything but the password hash and the
/// verification flag.
#[derive(Debug, PartialEq, Eq)]
pub struct UserResponse {
    pub id: u128,
    pub username: String,
    pub email: String,
    pub bio: Option<String>,
    pub image: Option<String>,
    pub created_at: u64,
    pub updated_at: u64,
}

/// Mathematical value of a [`UserResponse`].
pub struct UserResponseView {
    pub id: u128,
    pub username: Seq<char>,
    pub email: Seq<char>,
    pub bio: Option<Seq<char>>,
    pub image: Option<Seq<char>>,
    pub created_at: u64,
    pub updated_at: u64,
}

impl View for UserResponse {
    type V = UserResponseView;

    open spec fn view(&self) -> UserResponseView {
        UserResponseView {
            id: self.id,
            username: self.username@,
            email: self.email@,
            bio: opt_text(self.bio),
            image: opt_text(self.image),
            created_at: self.created_at,
            updated_at: self.updated_at,
        }
    }
}

/// The record of `user` without its password hash and verification flag.
pub open spec fn owner_view(user: UserView) -> UserResponseView {
    UserResponseView {
        id: user.id,
        username: user.username,
        email: user.email,
        bio: user.bio,
        image: user.image,
        created_at: user.created_at,
        updated_at: user.updated_at,
    }
}

impl From<User> for UserResponse {
    fn from(user: User) -> (r: Self) {
        UserResponse {
            id: user.id,
            username: user.username,
            email: user.email,
            bio: user.bio,
            image: user.image,
            created_at: user.created_at,
            updated_at: user.updated_at,
        }
    }
}

impl vstd::std_specs::convert::FromSpecImpl<User> for UserResponse {
    open spec fn obeys_from_spec() -> bool {
        true
    }

    open spec fn from_spec(user: User) -> Self {
        UserResponse {
            id: user.id,
            username: user.username,
            email: user.email,
            bio: user.bio,
            image: user.image,
            created_at: user.created_at,
            updated_at: user.updated_at,
        }
    }
}

/// The rules that an update breaks, in the order of its fields. A field that
/// is absent breaks none.
pub open spec fn update_errors(
    username: Option<Seq<char>>,
    email: Option<Seq<char>>,
    bio: Option<Seq<char>>,
    image: Option<Seq<char>>,
) -> Seq<FieldError> {
    let a = if username matches Some(u) && !length_within(u, 3, 50) {
        seq![FieldError::UsernameLength]
    } else {
        Seq::<FieldError>::empty()
    };
    let b = if email matches Some(e) && !email_well_formed(e) {
        a.push(FieldError::EmailFormat)
    } else {
        a
    };
    let c = if bio matches Some(t) && t.len() > 500 {
        b.push(FieldError::BioTooLong)
    } else {
        b
    };
    if image matches Some(i) && !url_well_formed(i) {
        c.push(FieldError::ImageUrl)
    } else {
        c
    }
}

impl CreateUserRequest {
    /// Well-formed: the same rules as for a registration.
    pub open spec fn is_valid(&self) -> bool {
        registration_errors(self.username@, self.email@, self.password@).len() == 0
    }

    /// Checks the shape of the fields; lists every broken rule.
    pub fn validate(&self) -> (r: Result<(), Vec<FieldError>>)
        ensures
            r is Ok <==> self.is_valid(),
            r matches Err(errors) ==> errors@ == registration_errors(
                self.username@,
                self.email@,
                self.password@,
            ),
    {
        let mut errors: Vec<FieldError> = Vec::new();
        if !has_length_within(self.username.as_str(), 3, 50) {
            errors.push(FieldError::UsernameLength);
        }
        if !email_check(self.email.as_str()) {
            errors.push(FieldError::EmailFormat);
        }
        if !has_length_at_least(self.password.as_str(), 8) {
            errors.push(FieldError::PasswordTooShort);
        }
        if errors.len() == 0 {
            Ok(())
        } else {
            Err(errors)
        }
    }
}

impl UpdateUserRequest {
    /// Well-formed: each field that is present keeps its rule.
    pub open spec fn is_valid(&self) -> bool {
        update_errors(
            opt_text(self.username),
            opt_text(self.email),
            opt_text(self.bio),
            opt_text(self.image),
        ).len() == 0
    }

    /// Checks the shape of the fields that are present; lists every broken
    /// rule.
    pub fn validate(&self) -> (r: Result<(), Vec<FieldError>>)
        ensures
            r is Ok <==> self.is_valid(),
            r matches Err(errors) ==> errors@ == update_errors(
                opt_text(self.username),
                opt_text(self.email),
                opt_text(self.bio),
                opt_text(self.image),
            ),
    {
        let mut errors: Vec<FieldError> = Vec::new();
        if let Some(u) = &self.username {
            if !has_length_within(u.as_str(), 3, 50) {
                errors.push(FieldError::UsernameLength);
            }
        }
        if let Some(e) = &self.email {
            if !email_check(e.as_str()) {
                errors.push(FieldError::EmailFormat);
            }
        }
        if let Some(b) = &self.bio {
            if !has_length_at_most(b.as_str(), 500) {
                errors.push(FieldError::BioTooLong);
            }
        }
        if let Some(i) = &self.image {
            if !url_check(i.as_str()) {
                errors.push(FieldError::ImageUrl);
            }
        }
        if errors.len() == 0 {
            Ok(())
        } else {
            Err(errors)
        }
    }
}

} // verus!

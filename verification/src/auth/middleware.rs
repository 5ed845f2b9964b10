//! Who is asking: the user behind the `Authorization` header of a request.
//!
//! The header carries an access token after the word `Token` and one space.

use crate::auth::jwt::{validate_token_at, validate_token_spec};
use crate::auth::tokens::{parse_id, uuid_parsed};
use crate::clock::unix_now;
use crate::errors::AuthError;
use crate::models::user::{opt_text, User, UserView};
use crate::repositories::traits::{
    lookup, opt_str, opt_view, EmailVerificationRepositoryTrait, PasswordResetRepositoryTrait,
    RefreshTokenRepositoryTrait, UserRepositoryTrait,
};
use crate::services::email_service::NotificationGateway;
use crate::state::AppState;
use vstd::prelude::*;
use vstd::string::*;

verus! {

/// The user of a request that must be authenticated.
#[derive(Debug, PartialEq, Eq)]
pub struct RequireAuth(pub User);

/// The user of a request that may be anonymous.
#[derive(Debug, PartialEq, Eq)]
pub struct OptionalAuth(pub Option<User>);

/// The word and the space that stand before the token.
pub open spec fn scheme() -> Seq<char> {
    seq!['T', 'o', 'k', 'e', 'n', ' ']
}

/// The token that an `Authorization` header carries, if the header is there
/// and starts with the scheme.
pub open spec fn bearer_token(header: Option<Seq<char>>) -> Option<Seq<char>> {
    match header {
        Some(h) => if h.len() >= 6 && h.subrange(0, 6) == scheme() {
            Some(h.subrange(6, h.len() as int))
        } else {
            None
        },
        None => None,
    }
}

/// Takes the token out of the value of the `Authorization` header.
pub fn extract_token_from_headers(authorization: Option<&str>) -> (r: Option<String>)
    ensures
        opt_text(r) == bearer_token(opt_str(authorization)),
{
    let header = match authorization {
        Some(h) => h,
        None => {
            return None;
        },
    };
    let n = header.unicode_len();
    if n < 6 {
        return None;
    }
    if header.get_char(0) == 'T' && header.get_char(1) == 'o' && header.get_char(2) == 'k'
        && header.get_char(3) == 'e' && header.get_char(4) == 'n' && header.get_char(5) == ' ' {
        assert(header@.subrange(0, 6) =~= scheme());
        Some(header.substring_char(6, n).to_owned())
    } else {
        assert(header@.subrange(0, 6) != scheme()) by {
            if header@.subrange(0, 6) == scheme() {
                assert(header@.subrange(0, 6)[0] == 'T');
                assert(header@.subrange(0, 6)[1] == 'o');
                assert(header@.subrange(0, 6)[2] == 'k');
                assert(header@.subrange(0, 6)[3] == 'e');
                assert(header@.subrange(0, 6)[4] == 'n');
                assert(header@.subrange(0, 6)[5] == ' ');
            }
        }
        None
    }
}

/// The id of the user that an `Authorization` header speaks for when the
/// clock reads `now`: the header carries a token, the token verifies under
/// the secret, and its subject reads as an id.
pub open spec fn bearer_subject(header: Option<Seq<char>>, secret: Seq<char>, now: u64) -> Option<
    u128,
> {
    match bearer_token(header) {
        Some(token) => match validate_token_spec(token, secret, now) {
            Ok(claims) => uuid_parsed(claims.sub),
            Err(_) => None,
        },
        None => None,
    }
}

/// Reads the id of the user that the header speaks for.
pub fn subject_of(authorization: Option<&str>, secret: &str, now: u64) -> (r: Option<u128>)
    ensures
        r == bearer_subject(opt_str(authorization), secret@, now),
{
    let token = match extract_token_from_headers(authorization) {
        Some(t) => t,
        None => {
            return None;
        },
    };
    match validate_token_at(token.as_str(), secret, now) {
        Ok(claims) => parse_id(claims.sub.as_str()),
        Err(_) => None,
    }
}

/// How the answer to a request that must be authenticated relates to the
/// header and the users: without a subject, and for a subject that is no
/// user, `Unauthorized`; for a subject that is a user, that user; `Internal`
/// only where there is a subject and the store has failed, which a
/// dependable store does not.
pub open spec fn require_auth_post(
    subject: Option<u128>,
    users: Map<u128, UserView>,
    dependable: bool,
    r: Result<UserView, AuthError>,
) -> bool {
    match subject {
        None => r == Err::<UserView, AuthError>(AuthError::Unauthorized),
        Some(id) => match r {
            Ok(user) => lookup(users, id) == Some(user),
            Err(AuthError::Unauthorized) => !users.contains_key(id),
            Err(AuthError::Internal) => !dependable,
            Err(_) => false,
        },
    }
}

/// How the answer to a request that may be anonymous relates to the header
/// and the users: without a subject, anonymous; for a subject, the user with
/// that id, or anonymous where there is none; `Internal` only where there is
/// a subject and the store has failed, which a dependable store does not. A
/// header that does not hold up is never a reason to refuse.
pub open spec fn optional_auth_post(
    subject: Option<u128>,
    users: Map<u128, UserView>,
    dependable: bool,
    r: Result<Option<UserView>, AuthError>,
) -> bool {
    match subject {
        None => r == Ok::<Option<UserView>, AuthError>(None),
        Some(id) => match r {
            Ok(found) => found == lookup(users, id),
            Err(e) => e == AuthError::Internal && !dependable,
        },
    }
}

impl RequireAuth {
    /// Value of the result of an authentication.
    pub open spec fn result_view(r: Result<RequireAuth, AuthError>) -> Result<UserView, AuthError> {
        match r {
            Ok(auth) => Ok(auth.0@),
            Err(e) => Err(e),
        }
    }

    /// Authenticates a request by its `Authorization` header when the clock
    /// reads `now`.
    pub fn from_request_parts_at<
        U: UserRepositoryTrait,
        E: EmailVerificationRepositoryTrait,
        P: PasswordResetRepositoryTrait,
        R: RefreshTokenRepositoryTrait,
        N: NotificationGateway,
    >(state: &AppState<U, E, P, R, N>, authorization: Option<&str>, now: u64) -> (r: Result<
        RequireAuth,
        AuthError,
    >)
        requires
            state.inv(),
        ensures
            require_auth_post(
                bearer_subject(opt_str(authorization), state.jwt_secret@, now),
                state.user_repository.users(),
                state.user_repository.dependable(),
                Self::result_view(r),
            ),
    {
        let user_id = match subject_of(authorization, state.jwt_secret.as_str(), now) {
            Some(id) => id,
            None => {
                return Err(AuthError::Unauthorized);
            },
        };
        match state.user_repository.find_by_id(user_id) {
            Ok(Some(user)) => Ok(RequireAuth(user)),
            Ok(None) => Err(AuthError::Unauthorized),
            Err(_) => Err(AuthError::Internal),
        }
    }

    /// Authenticates a request by its `Authorization` header at the current
    /// time.
    pub fn from_request_parts<
        U: UserRepositoryTrait,
        E: EmailVerificationRepositoryTrait,
        P: PasswordResetRepositoryTrait,
        R: RefreshTokenRepositoryTrait,
        N: NotificationGateway,
    >(state: &AppState<U, E, P, R, N>, authorization: Option<&str>) -> (r: Result<
        RequireAuth,
        AuthError,
    >)
        requires
            state.inv(),
        ensures
            exists|now: u64|
                require_auth_post(
                    #[trigger] bearer_subject(opt_str(authorization), state.jwt_secret@, now),
                    state.user_repository.users(),
                    state.user_repository.dependable(),
                    Self::result_view(r),
                ),
    {
        let now = unix_now();
        Self::from_request_parts_at(state, authorization, now)
    }
}

impl OptionalAuth {
    /// Value of the result of an optional authentication.
    pub open spec fn result_view(r: Result<OptionalAuth, AuthError>) -> Result<
        Option<UserView>,
        AuthError,
    > {
        match r {
            Ok(auth) => Ok(opt_view(auth.0)),
            Err(e) => Err(e),
        }
    }

    /// Finds the user of a request by its `Authorization` header when the
    /// clock reads `now`, or lets the request pass as anonymous.
    pub fn from_request_parts_at<
        U: UserRepositoryTrait,
        E: EmailVerificationRepositoryTrait,
        P: PasswordResetRepositoryTrait,
        R: RefreshTokenRepositoryTrait,
        N: NotificationGateway,
    >(state: &AppState<U, E, P, R, N>, authorization: Option<&str>, now: u64) -> (r: Result<
        OptionalAuth,
        AuthError,
    >)
        requires
            state.inv(),
        ensures
            optional_auth_post(
                bearer_subject(opt_str(authorization), state.jwt_secret@, now),
                state.user_repository.users(),
                state.user_repository.dependable(),
                Self::result_view(r),
            ),
    {
        let user_id = match subject_of(authorization, state.jwt_secret.as_str(), now) {
            Some(id) => id,
            None => {
                return Ok(OptionalAuth(None));
            },
        };
        match state.user_repository.find_by_id(user_id) {
            Ok(found) => Ok(OptionalAuth(found)),
            Err(_) => Err(AuthError::Internal),
        }
    }

    /// Finds the user of a request by its `Authorization` header at the
    /// current time, or lets the request pass as anonymous.
    pub fn from_request_parts<
        U: UserRepositoryTrait,
        E: EmailVerificationRepositoryTrait,
        P: PasswordResetRepositoryTrait,
        R: RefreshTokenRepositoryTrait,
        N: NotificationGateway,
    >(state: &AppState<U, E, P, R, N>, authorization: Option<&str>) -> (r: Result<
        OptionalAuth,
        AuthError,
    >)
        requires
            state.inv(),
        ensures
            exists|now: u64|
                optional_auth_post(
                    #[trigger] bearer_subject(opt_str(authorization), state.jwt_secret@, now),
                    state.user_repository.users(),
                    state.user_repository.dependable(),
                    Self::result_view(r),
                ),
    {
        let now = unix_now();
        Self::from_request_parts_at(state, authorization, now)
    }
}

} // verus!

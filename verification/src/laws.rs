//! What holds of the endpoints taken together.
//!
//! Each law speaks of the states before and after one or two requests and of
//! their results, as the contracts of the endpoints relate them. A store may
//! fail at any time; a request that the store has failed answers `Internal`,
//! and the laws say so where that can happen.

use crate::auth::jwt::{
    issued_claims, validate_token_spec, ClaimsView, TokenError, ACCESS_TOKEN_TTL,
};
use crate::auth::middleware::{bearer_subject, scheme};
use crate::auth::password::{bcrypt_verdict, HashingError};
use crate::auth::tokens::hyphenated_form;
use crate::errors::AuthError;
use crate::handlers::auth::{
    credentials_verdict, logout_post, new_password_post, refresh_post, security_alert,
    sessions_revoked, users_with_password, verify_email_post, Login, PasswordReset,
    RefreshVerdict, Registration, Rotation,
};
use crate::models::UserView;
use crate::repositories::traits::{email_taken, is_new_refresh_token, is_unused, lookup};
use crate::schemas::auth_schemas::LoginResponseView;
use crate::schemas::token_schemas::RefreshTokenResponseView;
use crate::state::Snapshot;
use vstd::prelude::*;

verus! {

/// The access token of a successful registration verifies under the signing
/// secret for as long as it lives, and its subject is the id of the user
/// that the registration created. Sent in an `Authorization` header, it
/// speaks for that user.
pub proof fn lemma_registration_token_names_new_user(
    request: Registration,
    before: Snapshot,
    after: Snapshot,
    response: LoginResponseView,
    later: u64,
) -> (id: u128)
    requires
        request.post(before, after, Ok(response)),
        later <= request.now + ACCESS_TOKEN_TTL,
    ensures
        !before.users.contains_key(id),
        after.users.contains_key(id),
        after.users[id].id == id,
        after.users[id].email == request.email,
        after.users[id].username == request.username,
        validate_token_spec(response.access_token, before.jwt_secret, later) == Ok::<
            ClaimsView,
            TokenError,
        >(issued_claims(id, request.now)),
        issued_claims(id, request.now).sub == hyphenated_form(id),
        bearer_subject(Some(scheme() + response.access_token), after.jwt_secret, later) == Some(id),
{
    let (id, hash) = choose|id: u128, hash: Seq<char>| #[trigger]
        request.completed(before, after, response, id, hash);
    let header = scheme() + response.access_token;
    assert(header.subrange(0, 6) =~= scheme());
    assert(header.subrange(6, header.len() as int) =~= response.access_token);
    id
}

/// An unknown email and a wrong password are refused in the same way by the
/// password check.
pub proof fn lemma_refusals_are_identical(user: UserView, wrong: Seq<char>, any: Seq<char>)
    requires
        bcrypt_verdict(wrong, user.password_hash) == Some(false),
    ensures
        credentials_verdict(Some(user), wrong) == credentials_verdict(None, any),
        credentials_verdict(None, any) == Err::<(), AuthError>(AuthError::Unauthorized),
{
}

/// A login with an unknown email and a login with a known email and a wrong
/// password change nothing and, unless the store fails, get one and the
/// same answer, `Unauthorized`.
pub proof fn lemma_login_refusals_are_identical(
    unknown: Login,
    before_unknown: Snapshot,
    after_unknown: Snapshot,
    r_unknown: Result<LoginResponseView, AuthError>,
    wrong: Login,
    id: u128,
    before_wrong: Snapshot,
    after_wrong: Snapshot,
    r_wrong: Result<LoginResponseView, AuthError>,
)
    requires
        unknown.is_valid(),
        !email_taken(before_unknown.users, unknown.email),
        unknown.post(before_unknown, after_unknown, r_unknown),
        wrong.is_valid(),
        wrong.names(before_wrong.users, id),
        bcrypt_verdict(wrong.password, before_wrong.users[id].password_hash) == Some(false),
        wrong.post(before_wrong, after_wrong, r_wrong),
    ensures
        after_unknown == before_unknown,
        after_wrong == before_wrong,
        r_unknown matches Err(e) && (e == AuthError::Unauthorized || e == AuthError::Internal),
        r_wrong matches Err(e) && (e == AuthError::Unauthorized || e == AuthError::Internal),
        r_unknown != Err::<LoginResponseView, AuthError>(AuthError::Internal) && r_wrong != Err::<
            LoginResponseView,
            AuthError,
        >(AuthError::Internal) ==> r_unknown == r_wrong,
        before_unknown.store_dependable ==> r_unknown == Err::<LoginResponseView, AuthError>(
            AuthError::Unauthorized,
        ),
        before_wrong.store_dependable ==> r_wrong == Err::<LoginResponseView, AuthError>(
            AuthError::Unauthorized,
        ),
{
    assert(unknown.denied(before_unknown.users));
    assert(wrong.denied(before_wrong.users));
}

/// The token is not in the store, or it is consumed.
pub open spec fn consumed_or_gone(before: Snapshot, token: Seq<char>) -> bool {
    !is_unused(before.refresh_tokens, token)
}

/// A refresh token that is consumed never refreshes: the request is
/// refused, and afterwards the token is still consumed, or gone, so that it
/// is refused again.
pub proof fn lemma_consumed_token_never_refreshes(
    token: Seq<char>,
    now: u64,
    replacement: Seq<char>,
    before: Snapshot,
    after: Snapshot,
    r: Result<RefreshTokenResponseView, AuthError>,
)
    requires
        consumed_or_gone(before, token),
        refresh_post(token, now, replacement, before, after, r),
    ensures
        r matches Err(e) && (e == AuthError::Unauthorized || e == AuthError::Internal),
        consumed_or_gone(after, token),
        before.store_dependable && !before.refresh_tokens.contains_key(token) ==> r == Err::<
            RefreshTokenResponseView,
            AuthError,
        >(AuthError::Unauthorized),
{
}

/// Presenting a consumed refresh token that has not expired ends every
/// session of its user: once the request is answered `Unauthorized`, the
/// store holds no refresh token of that user. With a store that does not
/// fail that is the answer, and the tokens are gone.
pub proof fn lemma_reuse_ends_all_sessions(
    token: Seq<char>,
    now: u64,
    replacement: Seq<char>,
    before: Snapshot,
    after: Snapshot,
    r: Result<RefreshTokenResponseView, AuthError>,
)
    requires
        before.refresh_tokens.contains_key(token),
        before.refresh_tokens[token].is_used,
        !before.refresh_tokens[token].is_expired_at(now),
        refresh_post(token, now, replacement, before, after, r),
    ensures
        r matches Err(e) && (e == AuthError::Unauthorized || e == AuthError::Internal),
        r == Err::<RefreshTokenResponseView, AuthError>(AuthError::Unauthorized) ==> forall|
            t: Seq<char>,
        | #[trigger]
            after.refresh_tokens.contains_key(t) ==> after.refresh_tokens[t].user_id
                != before.refresh_tokens[token].user_id,
        after.users == before.users,
        before.store_dependable ==> forall|t: Seq<char>| #[trigger]
            after.refresh_tokens.contains_key(t) ==> after.refresh_tokens[t].user_id
                != before.refresh_tokens[token].user_id,
        before.store_dependable && before.users.contains_key(
            before.refresh_tokens[token].user_id,
        ) ==> r == Err::<RefreshTokenResponseView, AuthError>(AuthError::Unauthorized),
{
}

/// A registration does not bring a consumed refresh token back.
pub proof fn lemma_registration_keeps_token_consumed(
    token: Seq<char>,
    request: Registration,
    before: Snapshot,
    after: Snapshot,
    r: Result<LoginResponseView, AuthError>,
)
    requires
        before.refresh_tokens.contains_key(token),
        before.refresh_tokens[token].is_used,
        request.post(before, after, r),
    ensures
        after.refresh_tokens.contains_key(token),
        after.refresh_tokens[token].is_used,
{
    if r is Ok {
        let response = r->Ok_0;
        let (id, hash) = choose|id: u128, hash: Seq<char>| #[trigger]
            request.completed(before, after, response, id, hash);
    }
}

/// A login does not bring a consumed refresh token back.
pub proof fn lemma_login_keeps_token_consumed(
    token: Seq<char>,
    request: Login,
    before: Snapshot,
    after: Snapshot,
    r: Result<LoginResponseView, AuthError>,
)
    requires
        before.refresh_tokens.contains_key(token),
        before.refresh_tokens[token].is_used,
        request.post(before, after, r),
    ensures
        after.refresh_tokens.contains_key(token),
        after.refresh_tokens[token].is_used,
{
    if r is Ok {
        let response = r->Ok_0;
        let id = choose|id: u128| #[trigger] request.completed(before, after, response, id);
    }
}

/// A logout does not bring a consumed refresh token back, whichever token
/// is logged out.
pub proof fn lemma_logout_keeps_token_consumed(
    token: Seq<char>,
    logged_out: Seq<char>,
    before: Snapshot,
    after: Snapshot,
    r: Result<Seq<char>, AuthError>,
)
    requires
        consumed_or_gone(before, token),
        logout_post(logged_out, before, after, r),
    ensures
        consumed_or_gone(after, token),
{
}

/// Of two requests that both saw the same refresh token active, at most one
/// is answered with new tokens. Where the first is, the second finds the
/// token consumed and is answered as a reuse: every session of the user is
/// ended, the replacement of the first request included. With a store that
/// does not fail and a fresh replacement, exactly one is answered with new
/// tokens, the first; the second is refused with `Unauthorized` (the store
/// knowing the user), no refresh token of the user is left, and with a
/// gateway that does not fail the user is alerted.
pub proof fn lemma_one_of_two_refreshes_wins(
    first: Rotation,
    second: Rotation,
    user_id: u128,
    start: Snapshot,
    between: Snapshot,
    end: Snapshot,
    r_first: Result<RefreshTokenResponseView, AuthError>,
    r_second: Result<RefreshTokenResponseView, AuthError>,
)
    requires
        first.token == second.token,
        first.found == lookup(start.refresh_tokens, first.token),
        second.found == first.found,
        first.verdict() == (RefreshVerdict::Active { user_id }),
        second.verdict() == (RefreshVerdict::Active { user_id }),
        first.post(start, between, r_first),
        second.post(between, end, r_second),
    ensures
        !(r_first is Ok && r_second is Ok),
        r_first is Ok ==> r_second is Err && (sessions_revoked(
            between,
            end,
            user_id,
            r_second->Err_0,
        ) || (r_second->Err_0 == AuthError::Internal && end == between)),
        start.store_dependable && !start.refresh_tokens.contains_key(first.replacement) ==> {
            &&& r_first is Ok
            &&& r_second is Err
            &&& sessions_revoked(between, end, user_id, r_second->Err_0)
            &&& forall|t: Seq<char>| #[trigger]
                end.refresh_tokens.contains_key(t) ==> end.refresh_tokens[t].user_id != user_id
            &&& start.users.contains_key(user_id) ==> r_second == Err::<
                RefreshTokenResponseView,
                AuthError,
            >(AuthError::Unauthorized)
            &&& start.users.contains_key(user_id) && start.gateway_dependable ==> end.delivered
                == start.delivered.push(security_alert(start.users[user_id]))
        },
        r_first is Ok && r_second == Err::<RefreshTokenResponseView, AuthError>(
            AuthError::Unauthorized,
        ) ==> forall|t: Seq<char>| #[trigger]
            end.refresh_tokens.contains_key(t) ==> end.refresh_tokens[t].user_id != user_id,
{
}

/// An email verification token works once. After it was used, with success
/// or because it had expired, the store does not hold it, and presenting it
/// again changes nothing and is answered `NotFound` (or `Internal`, where
/// the store fails).
pub proof fn lemma_verification_token_is_single_use(
    token: Seq<char>,
    now: u64,
    before: Snapshot,
    after: Snapshot,
    r: Result<Seq<char>, AuthError>,
    again: u64,
    end: Snapshot,
    r_again: Result<Seq<char>, AuthError>,
)
    requires
        verify_email_post(Some(token), now, before, after, r),
        r is Ok || r == Err::<Seq<char>, AuthError>(AuthError::Gone),
        verify_email_post(Some(token), again, after, end, r_again),
    ensures
        !after.verification_tokens.contains_key(token),
        r_again == Err::<Seq<char>, AuthError>(AuthError::NotFound) || r_again == Err::<
            Seq<char>,
            AuthError,
        >(AuthError::Internal),
        after.store_dependable ==> r_again == Err::<Seq<char>, AuthError>(AuthError::NotFound),
        end == after,
{
}

/// A password reset token works once. After it was used, with success or
/// because it had expired, the store does not hold it, and presenting it
/// again changes nothing and is answered `NotFound` (or `Internal`, where
/// the store fails).
pub proof fn lemma_reset_token_is_single_use(
    request: PasswordReset,
    before: Snapshot,
    after: Snapshot,
    r: Result<Seq<char>, AuthError>,
    again: PasswordReset,
    end: Snapshot,
    r_again: Result<Seq<char>, AuthError>,
)
    requires
        request.post(before, after, r),
        r is Ok || r == Err::<Seq<char>, AuthError>(AuthError::Gone),
        again.token == request.token,
        again.is_valid(),
        again.post(after, end, r_again),
    ensures
        !after.reset_tokens.contains_key(request.token),
        r_again == Err::<Seq<char>, AuthError>(AuthError::NotFound) || r_again == Err::<
            Seq<char>,
            AuthError,
        >(AuthError::Internal),
        after.store_dependable ==> r_again == Err::<Seq<char>, AuthError>(AuthError::NotFound),
        end == after,
{
    if r is Ok {
        let user_id = before.reset_tokens[request.token].user_id;
        let hash = choose|hash: Seq<char>| #[trigger]
            request.completed(before, after, user_id, hash);
    }
}

/// A successful password reset removes every reset token of the user whose
/// password was reset and leaves the reset tokens of all other users, and
/// every refresh token, as they were.
pub proof fn lemma_reset_spares_other_users(
    request: PasswordReset,
    before: Snapshot,
    after: Snapshot,
    message: Seq<char>,
)
    requires
        request.post(before, after, Ok(message)),
    ensures
        before.reset_tokens.contains_key(request.token),
        forall|t: Seq<char>| #[trigger]
            after.reset_tokens.contains_key(t) <==> before.reset_tokens.contains_key(t)
                && before.reset_tokens[t].user_id != before.reset_tokens[request.token].user_id,
        forall|t: Seq<char>| #[trigger]
            after.reset_tokens.contains_key(t) ==> after.reset_tokens[t] == before.reset_tokens[t],
        after.refresh_tokens == before.refresh_tokens,
        after.verification_tokens == before.verification_tokens,
{
    let user_id = before.reset_tokens[request.token].user_id;
    let hash = choose|hash: Seq<char>| #[trigger] request.completed(before, after, user_id, hash);
}

/// With a store and a gateway that do not fail, a well-formed registration
/// with a free email, a free username and fresh tokens goes through exactly
/// if the hasher answers with a hash; the user is stored with that hash.
pub proof fn lemma_registration_goes_through(
    request: Registration,
    hashed: Result<Seq<char>, HashingError>,
    before: Snapshot,
    after: Snapshot,
    r: Result<LoginResponseView, AuthError>,
)
    requires
        before.store_dependable,
        before.gateway_dependable,
        !request.conflicts(before),
        request.is_fresh(before),
        request.post_hashed(hashed, before, after, r),
    ensures
        r is Ok <==> hashed is Ok,
        r is Ok ==> exists|id: u128| #[trigger]
            request.stored(before, after, r->Ok_0, id, hashed->Ok_0),
{
}

/// With a store that does not fail, good credentials and a fresh refresh
/// token open a session for the user who has the email.
pub proof fn lemma_good_credentials_open_a_session(
    request: Login,
    before: Snapshot,
    after: Snapshot,
    r: Result<LoginResponseView, AuthError>,
)
    requires
        before.store_dependable,
        request.is_valid(),
        request.approved(before.users),
        !before.refresh_tokens.contains_key(request.refresh_token),
        request.post(before, after, r),
    ensures
        r is Ok,
        exists|id: u128| #[trigger] request.completed(before, after, r->Ok_0, id),
{
}

/// With a store that does not fail, an active refresh token is exchanged
/// for a new pair: the token is consumed, the replacement is stored for the
/// same user and unused, and the response carries it.
pub proof fn lemma_active_token_is_exchanged(
    token: Seq<char>,
    now: u64,
    replacement: Seq<char>,
    before: Snapshot,
    after: Snapshot,
    r: Result<RefreshTokenResponseView, AuthError>,
)
    requires
        before.store_dependable,
        before.refresh_tokens.contains_key(token),
        before.refresh_tokens[token].is_valid_at(now),
        !before.refresh_tokens.contains_key(replacement),
        refresh_post(token, now, replacement, before, after, r),
    ensures
        r is Ok,
        r->Ok_0.refresh_token == replacement,
        replacement != token,
        after.refresh_tokens[token] == before.refresh_tokens[token].consumed_at(now),
        after.refresh_tokens.contains_key(replacement),
        is_new_refresh_token(
            after.refresh_tokens[replacement],
            before.refresh_tokens[token].user_id,
            replacement,
            now,
        ),
{
}

/// With a store that does not fail, the reset for the user of a valid token
/// goes through exactly if the hasher answers with a hash. The user then has
/// that hash, and no reset token of the user is left.
pub proof fn lemma_reset_goes_through(
    user_id: u128,
    hashed: Result<Seq<char>, HashingError>,
    now: u64,
    before: Snapshot,
    after: Snapshot,
    r: Result<Seq<char>, AuthError>,
)
    requires
        before.store_dependable,
        new_password_post(user_id, hashed, now, before, after, r),
    ensures
        r is Ok <==> hashed is Ok,
        r is Ok ==> after.users == users_with_password(
            before.users,
            user_id,
            hashed->Ok_0,
            now,
        ),
        r is Ok ==> forall|t: Seq<char>| #[trigger]
            after.reset_tokens.contains_key(t) ==> after.reset_tokens[t].user_id != user_id,
{
}

} // verus!

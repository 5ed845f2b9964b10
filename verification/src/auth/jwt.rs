//! The access token: a signed, time-bound assertion of a user's identity.
//!
//! An access token cannot be revoked once issued, so it lives for a minute
//! only; the refresh token is the credential that can be withdrawn.

use crate::auth::tokens::{format_hyphenated, hyphenated_form, uuid_parsed};
use crate::clock::unix_now;
use jsonwebtoken::errors::ErrorKind;
use jsonwebtoken::{decode, encode, DecodingKey, EncodingKey, Header, Validation};
use serde_json::{Map as JsonMap, Value};
use vstd::prelude::*;

verus! {

/// Seconds for which an access token is accepted after it was issued.
pub const ACCESS_TOKEN_TTL: u64 = 60;

/// What an access token asserts: the user (`sub`, the canonical form of the
/// user's id), when it was issued (`iat`) and when it expires (`exp`), both
/// in seconds since the Unix epoch.
#[derive(Debug, PartialEq, Eq)]
pub struct Claims {
    pub sub: String,
    pub exp: u64,
    pub iat: u64,
}

/// Mathematical value of [`Claims`].
pub struct ClaimsView {
    pub sub: Seq<char>,
    pub exp: u64,
    pub iat: u64,
}

impl View for Claims {
    type V = ClaimsView;

    open spec fn view(&self) -> ClaimsView {
        ClaimsView { sub: self.sub@, exp: self.exp, iat: self.iat }
    }
}

/// Why an access token was not issued or not accepted.
#[derive(Clone, Copy, Debug, PartialEq, Eq, Structural)]
pub enum TokenError {
    /// The signature does not match the secret.
    InvalidSignature,
    /// The clock has passed the token's expiry.
    Expired,
    /// The text is not a token, or a claim is missing or has the wrong type.
    Malformed,
    /// The token could not be issued.
    Signing,
}

/// The three claims as they are found in a payload whose signature holds:
/// each is absent where the payload lacks it or holds another type.
pub struct RawClaims {
    pub sub: Option<String>,
    pub exp: Option<u64>,
    pub iat: Option<u64>,
}

/// Mathematical value of [`RawClaims`].
pub struct RawClaimsView {
    pub sub: Option<Seq<char>>,
    pub exp: Option<u64>,
    pub iat: Option<u64>,
}

impl View for RawClaims {
    type V = RawClaimsView;

    open spec fn view(&self) -> RawClaimsView {
        RawClaimsView {
            sub: match self.sub {
                Some(s) => Some(s@),
                None => None,
            },
            exp: self.exp,
            iat: self.iat,
        }
    }
}

/// The token that `jsonwebtoken::encode` makes, with its default header
/// (HS256), of the claims `sub`, `exp`, `iat` under the secret.
pub uninterp spec fn jwt_encoded(sub: Seq<char>, exp: u64, iat: u64, secret: Seq<char>) -> Seq<
    char,
>;

/// What `jsonwebtoken::decode` finds in a text under the secret when it
/// checks the signature (HS256) and that an expiry is present, but does not
/// compare the expiry with any clock.
pub uninterp spec fn jwt_decoded(token: Seq<char>, secret: Seq<char>) -> Result<
    RawClaimsView,
    TokenError,
>;

/// Value of what the decoder hands back.
pub open spec fn decoded_view(r: Result<RawClaims, TokenError>) -> Result<
    RawClaimsView,
    TokenError,
> {
    match r {
        Ok(raw) => Ok(raw@),
        Err(e) => Err(e),
    }
}

/// A payload that holds all three claims and whose signature holds.
pub open spec fn complete_payload(sub: Seq<char>, exp: u64, iat: u64) -> Result<
    RawClaimsView,
    TokenError,
> {
    Ok(RawClaimsView { sub: Some(sub), exp: Some(exp), iat: Some(iat) })
}

/// Calls `jsonwebtoken::encode` with the default header on a JSON object
/// that holds `sub`, `exp` and `iat` in this order. HMAC signing depends on
/// the message and the key alone. The claim beyond the name: a token that
/// comes back decodes under the same secret to the same three claims. And
/// one always comes back: the key is an HMAC key, as the default header asks;
/// HMAC takes a key of any length; and a JSON object of texts and numbers
/// always serialises. The call relies on the one crypto provider that the
/// manifest selects for `jsonwebtoken`; without one it panics.
#[verifier::external_body]
fn encode_signed(sub: &str, exp: u64, iat: u64, secret: &str) -> (r: Result<String, TokenError>)
    ensures
        r is Ok,
        r matches Ok(t) ==> t@ == jwt_encoded(sub@, exp, iat, secret@),
        r matches Ok(t) ==> jwt_decoded(t@, secret@) == complete_payload(sub@, exp, iat),
        r matches Err(e) ==> e == TokenError::Signing,
{
    let mut claims = JsonMap::new();
    claims.insert("sub".to_owned(), Value::from(sub));
    claims.insert("exp".to_owned(), Value::from(exp));
    claims.insert("iat".to_owned(), Value::from(iat));
    match encode(&Header::default(), &claims, &EncodingKey::from_secret(secret.as_bytes())) {
        Ok(t) => Ok(t),
        Err(_) => Err(TokenError::Signing),
    }
}

/// Calls `jsonwebtoken::decode` with the default validation but for the
/// comparison of the expiry with the system clock, which is switched off, so
/// that the answer depends on the text and the secret alone. A signature
/// that does not verify is reported as such; every other refusal of the
/// decoder counts as malformed. Like the encoder, the call relies on the
/// crypto provider that the manifest selects.
#[verifier::external_body]
fn decode_signed(token: &str, secret: &str) -> (r: Result<RawClaims, TokenError>)
    ensures
        decoded_view(r) == jwt_decoded(token@, secret@),
{
    let mut validation = Validation::default();
    validation.validate_exp = false;
    match decode::<Value>(token, &DecodingKey::from_secret(secret.as_bytes()), &validation) {
        Ok(data) => Ok(
            RawClaims {
                sub: data.claims.get("sub").and_then(Value::as_str).map(str::to_owned),
                exp: data.claims.get("exp").and_then(Value::as_u64),
                iat: data.claims.get("iat").and_then(Value::as_u64),
            },
        ),
        Err(e) => match e.kind() {
            ErrorKind::InvalidSignature => Err(TokenError::InvalidSignature),
            _ => Err(TokenError::Malformed),
        },
    }
}

/// The claims of an access token for `user_id` issued at `now`.
pub open spec fn issued_claims(user_id: u128, now: u64) -> ClaimsView {
    ClaimsView {
        sub: hyphenated_form(user_id),
        exp: (now + ACCESS_TOKEN_TTL) as u64,
        iat: now,
    }
}

/// What a decoded payload is worth when the clock reads `now`: malformed
/// unless all three claims are there, expired once `now` has passed `exp`.
pub open spec fn checked_claims(raw: RawClaimsView, now: u64) -> Result<ClaimsView, TokenError> {
    match (raw.sub, raw.exp, raw.iat) {
        (Some(sub), Some(exp), Some(iat)) => if now > exp {
            Err(TokenError::Expired)
        } else {
            Ok(ClaimsView { sub, exp, iat })
        },
        _ => Err(TokenError::Malformed),
    }
}

/// What verifying `token` under `secret` gives when the clock reads `now`.
pub open spec fn validate_token_spec(token: Seq<char>, secret: Seq<char>, now: u64) -> Result<
    ClaimsView,
    TokenError,
> {
    match jwt_decoded(token, secret) {
        Ok(raw) => checked_claims(raw, now),
        Err(e) => Err(e),
    }
}

/// Value of a verification result.
pub open spec fn claims_view(r: Result<Claims, TokenError>) -> Result<ClaimsView, TokenError> {
    match r {
        Ok(c) => Ok(c@),
        Err(e) => Err(e),
    }
}

/// Judges a payload whose signature holds against the clock.
pub fn check_claims(raw: RawClaims, now: u64) -> (r: Result<Claims, TokenError>)
    ensures
        claims_view(r) == checked_claims(raw@, now),
{
    match (raw.sub, raw.exp, raw.iat) {
        (Some(sub), Some(exp), Some(iat)) => {
            if now > exp {
                Err(TokenError::Expired)
            } else {
                Ok(Claims { sub, exp, iat })
            }
        },
        _ => Err(TokenError::Malformed),
    }
}

/// Whether `token` is the access token issued for `user_id` at `now` under
/// `secret`: it verifies to the issued claims until it expires, a minute
/// later, and is rejected as expired from then on.
pub open spec fn is_access_token_for(
    token: Seq<char>,
    user_id: u128,
    secret: Seq<char>,
    now: u64,
) -> bool {
    &&& token == jwt_encoded(
        hyphenated_form(user_id),
        (now + ACCESS_TOKEN_TTL) as u64,
        now,
        secret,
    )
    &&& forall|later: u64|
        later <= now + ACCESS_TOKEN_TTL ==> #[trigger] validate_token_spec(token, secret, later)
            == Ok::<ClaimsView, TokenError>(issued_claims(user_id, now))
    &&& forall|later: u64|
        later > now + ACCESS_TOKEN_TTL ==> #[trigger] validate_token_spec(token, secret, later)
            == Err::<ClaimsView, TokenError>(TokenError::Expired)
    &&& uuid_parsed(hyphenated_form(user_id)) == Some(user_id)
}

/// Issues an access token for `user_id` at `now`. The token expires
/// [`ACCESS_TOKEN_TTL`] seconds later and, until then, verifies under the
/// same secret to the claims it was issued with. Issuing always succeeds.
pub fn generate_token_at(user_id: u128, secret: &str, now: u64) -> (r: Result<String, TokenError>)
    requires
        now + ACCESS_TOKEN_TTL <= u64::MAX,
    ensures
        r is Ok,
        r matches Ok(t) ==> is_access_token_for(t@, user_id, secret@, now),
{
    let sub = format_hyphenated(user_id);
    encode_signed(sub.as_str(), now + ACCESS_TOKEN_TTL, now, secret)
}

/// Verifies `token` under `secret` when the clock reads `now`. The answer
/// depends on these three alone.
pub fn validate_token_at(token: &str, secret: &str, now: u64) -> (r: Result<Claims, TokenError>)
    ensures
        claims_view(r) == validate_token_spec(token@, secret@, now),
{
    match decode_signed(token, secret) {
        Ok(raw) => check_claims(raw, now),
        Err(e) => Err(e),
    }
}

/// Issues an access token for `user_id` at the current time. Issuing always
/// succeeds.
pub fn generate_token(user_id: u128, secret: &str) -> (r: Result<String, TokenError>)
    ensures
        r is Ok,
        exists|now: u64|
            now + ACCESS_TOKEN_TTL <= u64::MAX && #[trigger] is_access_token_for(
                r->Ok_0@,
                user_id,
                secret@,
                now,
            ),
{
    let now = unix_now();
    generate_token_at(user_id, secret, now)
}

/// Verifies `token` under `secret` at the current time.
pub fn validate_token(token: &str, secret: &str) -> (r: Result<Claims, TokenError>)
    ensures
        exists|now: u64| claims_view(r) == #[trigger] validate_token_spec(token@, secret@, now),
{
    let now = unix_now();
    validate_token_at(token, secret, now)
}

} // verus!

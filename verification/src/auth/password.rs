//! One-way password hashing with bcrypt.

use vstd::prelude::*;

verus! {

/// Work factor used for every stored password hash.
pub const PASSWORD_COST: u32 = 14;

/// Failure of the hashing backend.
#[derive(Clone, Copy, Debug, PartialEq, Eq)]
pub enum HashingError {
    /// The stored hash string is not a bcrypt hash, or names a work factor
    /// that bcrypt does not accept.
    MalformedHash,
    /// The backend could not produce a hash (no randomness, bad work factor).
    Backend,
}

/// The character of a decimal digit.
pub open spec fn decimal_digit(n: int) -> char {
    if n == 0 {
        '0'
    } else if n == 1 {
        '1'
    } else if n == 2 {
        '2'
    } else if n == 3 {
        '3'
    } else if n == 4 {
        '4'
    } else if n == 5 {
        '5'
    } else if n == 6 {
        '6'
    } else if n == 7 {
        '7'
    } else if n == 8 {
        '8'
    } else {
        '9'
    }
}

/// Whether `hash` is written as bcrypt writes a hash made with the work
/// factor `cost`: 60 characters that begin with the version `2b` and the
/// factor in two digits, each between `$` signs.
pub open spec fn has_work_factor(hash: Seq<char>, cost: u32) -> bool {
    &&& hash.len() == 60
    &&& hash[0] == '$'
    &&& hash[1] == '2'
    &&& hash[2] == 'b'
    &&& hash[3] == '$'
    &&& hash[4] == decimal_digit(cost as int / 10)
    &&& hash[5] == decimal_digit(cost as int % 10)
    &&& hash[6] == '$'
}

/// What `bcrypt::verify` answers for a password and a stored hash:
/// `Some(matches)` when the hash parses, `None` when it is rejected.
pub uninterp spec fn bcrypt_verdict(password: Seq<char>, hash: Seq<char>) -> Option<bool>;

/// Calls `bcrypt::hash`. The salt is drawn from the operating system, so the
/// hash itself is not determined by the arguments; what is claimed is that a
/// hash handed back verifies against the password it was made from and
/// carries the work factor it was made with, which lies between 4 and 31.
#[verifier::external_body]
fn bcrypt_hash(password: &str, cost: u32) -> (r: Result<String, HashingError>)
    ensures
        r matches Ok(h) ==> bcrypt_verdict(password@, h@) == Some(true),
        r matches Ok(h) ==> has_work_factor(h@, cost) && 4 <= cost <= 31,
        r matches Err(e) ==> e == HashingError::Backend,
{
    match bcrypt::hash(password, cost) {
        Ok(h) => Ok(h),
        Err(_) => Err(HashingError::Backend),
    }
}

/// Calls `bcrypt::verify`, which splits the stored hash, recomputes it from
/// the password and compares. It fails where the hash cannot be split, and
/// where the work factor written in it is below 4 or above 31.
#[verifier::external_body]
fn bcrypt_verify(password: &str, hash: &str) -> (r: Result<bool, HashingError>)
    ensures
        r matches Ok(b) ==> bcrypt_verdict(password@, hash@) == Some(b),
        r matches Err(e) ==> e == HashingError::MalformedHash && bcrypt_verdict(
            password@,
            hash@,
        ) is None,
{
    match bcrypt::verify(password, hash) {
        Ok(b) => Ok(b),
        Err(_) => Err(HashingError::MalformedHash),
    }
}

/// Whether `hash` is a hash of `password` as this library makes it: it
/// verifies against the password and was made with [`PASSWORD_COST`].
pub open spec fn is_hash_of(hash: Seq<char>, password: Seq<char>) -> bool {
    &&& bcrypt_verdict(password, hash) == Some(true)
    &&& has_work_factor(hash, PASSWORD_COST)
}

/// Hashes `password` with the fixed work factor.
pub fn hash_password(password: &str) -> (r: Result<String, HashingError>)
    ensures
        r matches Ok(h) ==> is_hash_of(h@, password@),
        r matches Ok(h) ==> verify_password_spec(password@, h@) == Ok::<bool, HashingError>(true),
        r matches Err(e) ==> e == HashingError::Backend,
{
    bcrypt_hash(password, PASSWORD_COST)
}

/// Result of checking `password` against a stored `hash`.
pub open spec fn verify_password_spec(password: Seq<char>, hash: Seq<char>) -> Result<bool, HashingError> {
    match bcrypt_verdict(password, hash) {
        Some(b) => Ok(b),
        None => Err(HashingError::MalformedHash),
    }
}

/// Checks `password` against a stored `hash`.
pub fn verify_password(password: &str, hash: &str) -> (r: Result<bool, HashingError>)
    ensures
        r == verify_password_spec(password@, hash@),
{
    bcrypt_verify(password, hash)
}

} // verus!

//! Opaque identifiers: random 128-bit values and their two text forms.

use vstd::prelude::*;

verus! {

/// The lower-case hexadecimal digit for `n` in `0..16`.
pub open spec fn hex_digit(n: int) -> char {
    if n == 0 {
        '0'
    } else if n == 1 {
        '1'
    } else if n == 2 {
        '2'
    } else if n == 3 {
        '3'
    } else if n == 4 {
        '4'
    } else if n == 5 {
        '5'
    } else if n == 6 {
        '6'
    } else if n == 7 {
        '7'
    } else if n == 8 {
        '8'
    } else if n == 9 {
        '9'
    } else if n == 10 {
        'a'
    } else if n == 11 {
        'b'
    } else if n == 12 {
        'c'
    } else if n == 13 {
        'd'
    } else if n == 14 {
        'e'
    } else {
        'f'
    }
}

/// 16 to the power `e`.
pub open spec fn pow16(e: nat) -> nat
    decreases e,
{
    if e == 0 {
        1
    } else {
        16 * pow16((e - 1) as nat)
    }
}

/// The hexadecimal digit of `id` at position `i`, counted from the most
/// significant of its 32 digits.
pub open spec fn nibble(id: u128, i: int) -> int {
    (id as int / pow16((31 - i) as nat) as int) % 16
}

/// The condensed form of `id`: 32 lower-case hexadecimal digits, most
/// significant first.
pub open spec fn simple_form(id: u128) -> Seq<char> {
    Seq::new(32, |i: int| hex_digit(nibble(id, i)))
}

/// The canonical form of `id`: the 32 digits in groups of 8, 4, 4, 4 and 12,
/// separated by hyphens.
pub open spec fn hyphenated_form(id: u128) -> Seq<char> {
    let s = simple_form(id);
    s.subrange(0, 8) + seq!['-'] + s.subrange(8, 12) + seq!['-'] + s.subrange(12, 16) + seq!['-']
        + s.subrange(16, 20) + seq!['-'] + s.subrange(20, 32)
}

/// What `uuid::Uuid::parse_str` reads from a text: the 128-bit value, or
/// nothing where the text is not a UUID in any form the parser knows.
pub uninterp spec fn uuid_parsed(text: Seq<char>) -> Option<u128>;

/// Whether `id` carries the version and variant marks of a random
/// (version 4) UUID.
pub open spec fn is_version4(id: u128) -> bool {
    id & 0x0000_0000_0000_f000_c000_0000_0000_0000u128 == 0x0000_0000_0000_4000_8000_0000_0000_0000u128
}

/// Calls `uuid::Uuid::new_v4`, which draws 128 random bits from the
/// operating system and overwrites six of them with the version and variant
/// marks. Nothing else is claimed of the value. Where the operating system
/// has no randomness to give, the call panics.
#[verifier::external_body]
pub(crate) fn random_id() -> (id: u128)
    ensures
        is_version4(id),
{
    uuid::Uuid::new_v4().as_u128()
}

/// Formats through `uuid::Uuid`'s `Display`, which writes the hyphenated
/// lower-case form. The parser of the same crate reads that form back.
#[verifier::external_body]
pub(crate) fn format_hyphenated(id: u128) -> (text: String)
    ensures
        text@ == hyphenated_form(id),
        uuid_parsed(text@) == Some(id),
{
    uuid::Uuid::from_u128(id).to_string()
}

/// Formats through `uuid::fmt::Simple`'s `Display`, which writes the 32
/// lower-case digits without separators.
#[verifier::external_body]
pub(crate) fn format_simple(id: u128) -> (text: String)
    ensures
        text@ == simple_form(id),
{
    uuid::Uuid::from_u128(id).simple().to_string()
}

/// Calls `uuid::Uuid::parse_str`.
#[verifier::external_body]
pub(crate) fn parse_id(text: &str) -> (r: Option<u128>)
    ensures
        r == uuid_parsed(text@),
{
    match uuid::Uuid::parse_str(text) {
        Ok(id) => Some(id.as_u128()),
        Err(_) => None,
    }
}

/// Whether `text` is the canonical form of a random identifier.
pub open spec fn is_refresh_token_text(text: Seq<char>) -> bool {
    exists|id: u128| is_version4(id) && text == #[trigger] hyphenated_form(id)
}

/// A fresh refresh token: a random identifier in canonical form.
pub fn generate_refresh_token() -> (token: String)
    ensures
        is_refresh_token_text(token@),
        token@.len() == 36,
{
    let id = random_id();
    let token = format_hyphenated(id);
    assert(hyphenated_form(id).len() == 36);
    token
}

} // verus!

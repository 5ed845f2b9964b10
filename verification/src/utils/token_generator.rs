//! Tokens that travel inside links.

use crate::auth::tokens::{format_simple, is_version4, random_id, simple_form};
use vstd::prelude::*;

verus! {

/// Whether `text` is the condensed form of a random identifier.
pub open spec fn is_link_token_text(text: Seq<char>) -> bool {
    exists|id: u128| is_version4(id) && text == #[trigger] simple_form(id)
}

/// A fresh token for a verification or reset link: a random identifier as
/// 32 hexadecimal digits, with nothing that a URL would have to escape.
pub fn generate_verification_token() -> (token: String)
    ensures
        is_link_token_text(token@),
        token@.len() == 32,
{
    let id = random_id();
    format_simple(id)
}

} // verus!

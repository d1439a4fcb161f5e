//! The check of a request's API key.

use vstd::prelude::*;

use crate::text::str_eq;

verus! {

/// Whether `api_token` is the key stored for the user (`None` when the user
/// has no key stored).
pub fn check_auth(stored_token: Option<&str>, api_token: &str) -> (r: bool)
    ensures
        r == (stored_token matches Some(t) && t@ == api_token@),
{
    match stored_token {
        Some(t) => str_eq(t, api_token),
        None => false,
    }
}

} // verus!

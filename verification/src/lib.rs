//! Client-side addressing and decoding layer for a two-backend content API.
//!
//! A caller addresses a logical content resource (a row, collection, tag, or
//! form) through a two-variant locator without knowing which of the two
//! backend services owns it. The router resolves every locator into one of
//! exactly two URL templates, and the envelope module gives every wire reply
//! a uniform success/error decoding contract with a defined fallback when an
//! error body is not valid structured data.

pub mod decode;
pub mod envelope;
pub mod escape;
pub mod hex;
pub mod id;
pub mod locator;
pub mod query;
pub mod registration;
pub mod request;
pub mod routes;
pub mod strutil;

use vstd::prelude::*;
use crate::id::{uuid_chars, UuidValue};
use crate::strutil::{append_str_chars, chars_to_string};

verus! {

/// Holder for the process-wide bearer token used on outgoing requests.
///
/// The token starts empty and is set once at startup by
/// [`register_call_token`]; every outgoing request reads the current value
/// to build its authorization header. The store is an explicit value so that
/// a header recomputed per request from the current store always reflects
/// the latest registration.
pub struct TokenStore {
    pub token: String,
}

impl TokenStore {
    /// A store with no token registered yet.
    pub fn new() -> (r: TokenStore)
        ensures
            r.token@ == Seq::<char>::empty(),
    {
        TokenStore { token: String::new() }
    }
}

/// Registers the caller's identifier as the bearer token: the stored header
/// value becomes `Basic ` followed by the rendered identifier.
pub fn register_call_token(store: &mut TokenStore, value: UuidValue)
    ensures
        final(store).token@ == "Basic "@ + uuid_chars(value.value as nat),
{
    let mut out: Vec<char> = Vec::new();
    append_str_chars(&mut out, "Basic ");
    let rendered = value.render();
    append_str_chars(&mut out, rendered.as_str());
    store.token = chars_to_string(&out);
}

/// Reads the current bearer token, exactly as stored.
pub fn get_call_token(store: &TokenStore) -> (r: String)
    ensures
        r@ == store.token@,
{
    store.token.clone()
}

} // verus!

//! Who may use the protected endpoints.

use subtle::ConstantTimeEq;
use vstd::prelude::*;

use crate::config::{opt_text, AppState};
use crate::error::ApiError;
#[allow(unused_imports)]
use crate::error::{ApiErrorView, Status};

verus! {

/// Whether `byte` is a visible ASCII character, a space or a tab.
pub open spec fn is_visible(byte: u8) -> bool {
    32 <= byte < 127 || byte == 9
}

/// The text of a header's bytes, if all of them are visible.
pub open spec fn header_chars(bytes: Seq<u8>) -> Option<Seq<char>> {
    if forall|i: int| 0 <= i < bytes.len() ==> is_visible(#[trigger] bytes[i]) {
        Some(Seq::new(bytes.len(), |i: int| bytes[i] as char))
    } else {
        None
    }
}

/// Trusts `HeaderValue::to_str` of the `http` crate, on what `HeaderValue::from_bytes` accepts: a
/// header whose bytes are all visible is read as these characters, and any other header is not
/// read.
#[verifier::external_body]
fn header_text(bytes: &[u8]) -> (text: Option<String>)
    ensures
        opt_text(text) == header_chars(bytes@),
{
    let value = axum::http::HeaderValue::from_bytes(bytes).ok()?;
    value.to_str().ok().map(|text| text.to_string())
}

/// Trusts `ct_eq` of the `subtle` crate: two byte strings are equal when they have one length
/// and the same bytes, and this is what 1 says. Of the time that it takes nothing is stated.
#[verifier::external_body]
fn constant_time_eq(a: &[u8], b: &[u8]) -> (choice: u8)
    ensures
        choice == if a@ == b@ { 1u8 } else { 0u8 },
{
    a.ct_eq(b).unwrap_u8()
}

/// The key that a request supplies: the text of its key header, or nothing.
pub open spec fn supplied_key(header: Option<Seq<u8>>) -> Seq<char> {
    match header {
        Some(bytes) => match header_chars(bytes) {
            Some(text) => text,
            None => Seq::empty(),
        },
        None => Seq::empty(),
    }
}

/// Whether a request with the given key header is admitted: no key is set, or the request
/// supplies it.
pub open spec fn admitted(key: Option<Seq<char>>, header: Option<Seq<u8>>) -> bool {
    match key {
        Some(expected) => supplied_key(header) == expected,
        None => true,
    }
}

/// What a request is answered that is not admitted.
pub open spec fn not_admitted() -> ApiErrorView {
    ApiErrorView { status: Status::Unauthorized, detail: "Invalid or missing API key"@ }
}

/// The bytes of an optional header.
pub open spec fn opt_bytes(header: Option<&[u8]>) -> Option<Seq<u8>> {
    match header {
        Some(bytes) => Some(bytes@),
        None => None,
    }
}

/// Admits a request by the bytes of its `x-api-key` header.
pub fn authorize(header: Option<&[u8]>, state: &AppState) -> (checked: Result<(), ApiError>)
    ensures
        match checked {
            Ok(()) => admitted(opt_text(state.settings().api_key), opt_bytes(header)),
            Err(error) => !admitted(opt_text(state.settings().api_key), opt_bytes(header))
                && error@ == not_admitted(),
        },
{
    if let Some(expected) = &state.config().api_key {
        let supplied = match header {
            Some(bytes) => match header_text(bytes) {
                Some(text) => text,
                None => String::new(),
            },
            None => String::new(),
        };
        assert(supplied@ == supplied_key(opt_bytes(header)));
        let same = constant_time_eq(supplied.as_str().as_bytes(), expected.as_str().as_bytes());
        proof {
            vstd::utf8::encode_utf8_decode_utf8(supplied@);
            vstd::utf8::encode_utf8_decode_utf8(expected@);
        }
        if same != 1 {
            return Err(ApiError::unauthorized("Invalid or missing API key"));
        }
    }
    Ok(())
}

} // verus!

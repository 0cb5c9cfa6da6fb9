//! Base64 helpers for carrying protocol blobs as text: URL-safe unpadded
//! encoding, and a tolerant decoder that accepts either the URL-safe or the
//! standard alphabet, with or without padding, around surrounding
//! whitespace.

use vstd::prelude::*;

use base64::Engine;

use crate::errors::OpaqueError;

verus! {

/// The URL-safe unpadded base64 encoding of a byte string. A function of
/// the bytes alone; named rather than spelled out.
pub uninterp spec fn spec_b64_url_encode(data: Seq<u8>) -> Seq<char>;

/// What base64 decoding under the URL-safe alphabet, padding accepted but
/// not required, yields for a text: the decoded bytes, or nothing when the
/// text is not valid base64. A function of the characters alone.
pub uninterp spec fn spec_b64_url_decode(text: Seq<char>) -> Option<Seq<u8>>;

/// What base64 decoding under the standard alphabet, padding accepted but
/// not required, yields for a text. A function of the characters alone.
pub uninterp spec fn spec_b64_std_decode(text: Seq<char>) -> Option<Seq<u8>>;

/// A text with leading and trailing whitespace removed. A function of the
/// characters alone.
pub uninterp spec fn spec_trimmed(text: Seq<char>) -> Seq<char>;

/// Relies on str::trim: returns the string with leading and trailing
/// whitespace removed; the result depends on the characters alone.
pub assume_specification<'a>[ str::trim ](s: &'a str) -> (r: &'a str)
    ensures
        r@ == spec_trimmed(s@),
;

/// Relies on base64's URL_SAFE_NO_PAD engine: encodes the bytes in the
/// URL-safe alphabet without padding, and its output decodes back to the
/// input under the URL-safe alphabet with indifferent padding. The length
/// bound keeps the engine's output-size computation from overflowing.
#[verifier::external_body]
pub fn encode_b64(data: &[u8]) -> (r: String)
    requires
        data@.len() <= usize::MAX as int / 4,
    ensures
        r@ == spec_b64_url_encode(data@),
        spec_b64_url_decode(r@) == Some(data@),
        data@.len() == 0 ==> r@.len() == 0,
{
    base64::engine::general_purpose::URL_SAFE_NO_PAD.encode(data)
}

/// Relies on base64's URL_SAFE_PAD_INDIFFERENT engine: decodes under the
/// URL-safe alphabet, accepting input with or without padding, or rejects;
/// either way on the characters alone.
#[verifier::external_body]
fn b64_decode_url(text: &str) -> (r: Option<Vec<u8>>)
    ensures
        match spec_b64_url_decode(text@) {
            Some(v) => r matches Some(out) && out@ == v,
            None => r is None,
        },
{
    base64::engine::general_purpose::URL_SAFE_PAD_INDIFFERENT.decode(text).ok()
}

/// Relies on base64's STANDARD_PAD_INDIFFERENT engine: decodes under the
/// standard alphabet, accepting input with or without padding, or rejects;
/// either way on the characters alone.
#[verifier::external_body]
fn b64_decode_std(text: &str) -> (r: Option<Vec<u8>>)
    ensures
        match spec_b64_std_decode(text@) {
            Some(v) => r matches Some(out) && out@ == v,
            None => r is None,
        },
{
    base64::engine::general_purpose::STANDARD_PAD_INDIFFERENT.decode(text).ok()
}

/// Decodes base64 text: trims surrounding whitespace, tries the URL-safe
/// alphabet first, then falls back to the standard alphabet. Text that
/// neither accepts is a `SerializationFailure`.
pub fn decode_b64(text: &str) -> (r: Result<Vec<u8>, OpaqueError>)
    ensures
        match spec_b64_url_decode(spec_trimmed(text@)) {
            Some(v) => r matches Ok(out) && out@ == v,
            None => match spec_b64_std_decode(spec_trimmed(text@)) {
                Some(v) => r matches Ok(out) && out@ == v,
                None => r == Err::<Vec<u8>, OpaqueError>(OpaqueError::SerializationFailure),
            },
        },
{
    let trimmed = text.trim();
    match b64_decode_url(trimmed) {
        Some(v) => Ok(v),
        None => match b64_decode_std(trimmed) {
            Some(v) => Ok(v),
            None => Err(OpaqueError::SerializationFailure),
        },
    }
}

} // verus!

//! Base64 decoding through the `base64` crate.
use vstd::prelude::*;

use base64::Engine;

verus! {

/// The `base64` crate's error for input that is not valid Base64.
#[verifier::external_type_specification]
#[verifier::external_body]
pub struct ExDecodeError(base64::DecodeError);

/// What the standard Base64 engine (`base64::engine::general_purpose::STANDARD`,
/// padded alphabet with `+` and `/`) decodes a text to; `None` when the text
/// is not valid Base64.
pub uninterp spec fn base64_standard_decode(input: Seq<char>) -> Option<Seq<u8>>;

/// `STANDARD.decode(input)`: decodes standard Base64. Whether it succeeds and
/// which bytes it yields are named by `base64_standard_decode`; the error value
/// is not described.
#[verifier::external_body]
pub(crate) fn decode_base64(input: &str) -> (r: Result<Vec<u8>, base64::DecodeError>)
    ensures
        r is Ok <==> base64_standard_decode(input@) is Some,
        r matches Ok(v) ==> Some(v@) == base64_standard_decode(input@),
{
    base64::engine::general_purpose::STANDARD.decode(input)
}

/// `DecodeError`'s `Display` text. Nothing is stated of it.
#[verifier::external_body]
pub(crate) fn decode_error_text(e: &base64::DecodeError) -> (r: String) {
    format!("{}", e)
}

} // verus!

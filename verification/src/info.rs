//! The typed model of externally gathered state, its binary codec, and
//! the text-safe transport encoding of the resulting blob.

use vstd::prelude::*;

pub mod codec;
pub mod gh;
pub mod git;
pub mod glab;

use base64::Engine;

verus! {

/// What base64 encoding with the standard padded alphabet makes of a
/// byte string.
pub uninterp spec fn base64_of(bytes: Seq<u8>) -> Seq<char>;

/// What base64 decoding with the standard padded alphabet makes of a
/// string: the unique byte string it canonically encodes, or nothing.
pub uninterp spec fn base64_decode_of(s: Seq<char>) -> Option<Seq<u8>>;

/// Relies on base64's `Engine::encode` with the standard alphabet and
/// padding: the result is a pure function of the input bytes, four
/// characters for every started group of three bytes, and
/// `Engine::decode` of the same engine, which demands canonical
/// padding, recovers exactly the input.
#[verifier::external_body]
pub fn encode_base64(bytes: &[u8]) -> (r: String)
    ensures
        r@ == base64_of(bytes@),
        r@.len() == 4 * ((bytes@.len() + 2) / 3),
        base64_decode_of(r@) == Some(bytes@),
{
    base64::engine::general_purpose::STANDARD.encode(bytes)
}

#[verifier::external_type_specification]
#[verifier::external_body]
pub struct ExDecodeError(base64::DecodeError);

/// Relies on base64's `Engine::decode` with the standard alphabet and
/// padding, which accepts exactly the canonical encodings: a pure
/// function of the input string, failing on everything that
/// `Engine::encode` cannot produce.
#[verifier::external_body]
pub fn decode_base64(encoded: &str) -> (r: Result<Vec<u8>, base64::DecodeError>)
    ensures
        match r {
            Ok(b) => base64_decode_of(encoded@) == Some(b@),
            Err(_) => base64_decode_of(encoded@) is None,
        },
{
    base64::engine::general_purpose::STANDARD.decode(encoded)
}

} // verus!

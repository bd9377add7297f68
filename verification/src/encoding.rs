//! Byte-level decoding steps used when reading credentials: standard Base64
//! (through the `base64` crate) and UTF-8 (through `String::from_utf8`).

use vstd::prelude::*;
use vstd::utf8::*;

verus! {

#[verifier::external_type_specification]
#[verifier::external_body]
pub struct ExBase64DecodeError(base64::DecodeError);

#[verifier::external_type_specification]
#[verifier::external_body]
pub struct ExFromUtf8Error(std::string::FromUtf8Error);

/// What the `STANDARD` engine of the `base64` crate (RFC 4648 alphabet,
/// canonical `=` padding required) decodes `input` to, or `None` where it
/// rejects the input.
pub uninterp spec fn base64_standard_decode(input: Seq<u8>) -> Option<Seq<u8>>;

/// Calls `base64::Engine::decode` on `base64::engine::general_purpose::STANDARD`.
/// Trusted: the result is `Ok` exactly when the named decoding accepts the
/// input, and then holds the decoded bytes. Decoding depends on the input
/// alone; how it decodes is left to the crate.
#[verifier::external_body]
pub(crate) fn decode_base64_standard(input: &[u8]) -> (r: Result<Vec<u8>, base64::DecodeError>)
    ensures
        r is Ok <==> base64_standard_decode(input@) is Some,
        r matches Ok(v) ==> base64_standard_decode(input@) == Some(v@),
{
    base64::Engine::decode(&base64::engine::general_purpose::STANDARD, input)
}

/// Calls `String::from_utf8`. Trusted, as std documents it: the bytes are
/// turned into a `String` exactly when they are valid UTF-8, and the string
/// then holds the characters they encode.
#[verifier::external_body]
pub(crate) fn string_from_utf8(bytes: Vec<u8>) -> (r: Result<String, std::string::FromUtf8Error>)
    ensures
        r is Ok <==> valid_utf8(bytes@),
        r matches Ok(s) ==> s@ == decode_utf8(bytes@),
{
    String::from_utf8(bytes)
}

} // verus!

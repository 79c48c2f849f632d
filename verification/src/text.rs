//! Conversions from bytes to text, made by the standard library.
use vstd::prelude::*;
use vstd::utf8::{decode_utf8, valid_utf8};

verus! {

/// The characters that `String::from_utf8_lossy` makes of a byte sequence.
pub uninterp spec fn utf8_lossy(bytes: Seq<u8>) -> Seq<char>;

/// Decode bytes as UTF-8, or give `None` if they are not valid UTF-8.
///
/// Trusted: calls `String::from_utf8`, which succeeds exactly when the bytes
/// are valid UTF-8 (well-formed, not overlong, no surrogates, at most
/// U+10FFFF) and then holds the characters they encode. The contract states
/// that, with vstd's definitions of valid UTF-8 and of its decoding.
#[verifier::external_body]
pub(crate) fn string_from_utf8(bytes: Vec<u8>) -> (r: Option<String>)
    ensures
        r is Some <==> valid_utf8(bytes@),
        r matches Some(s) ==> s@ == decode_utf8(bytes@),
{
    String::from_utf8(bytes).ok()
}

/// Decode bytes as UTF-8, replacing each invalid sequence with U+FFFD.
///
/// Trusted: calls `String::from_utf8_lossy` and takes the result as an owned
/// string. The contract names the result `utf8_lossy` of the bytes and states
/// what the documentation promises: valid UTF-8 is decoded unchanged. Which
/// replacement characters stand for invalid bytes is not stated.
#[verifier::external_body]
pub(crate) fn string_from_utf8_lossy(bytes: &[u8]) -> (r: String)
    ensures
        r@ == utf8_lossy(bytes@),
        valid_utf8(bytes@) ==> r@ == decode_utf8(bytes@),
{
    String::from_utf8_lossy(bytes).into_owned()
}

} // verus!

//! Byte codecs: base64 (standard alphabet, padded) and UTF-8 text.
use vstd::prelude::*;
use vstd::utf8::{decode_utf8, valid_utf8};

verus! {

/// What base64's `STANDARD` engine writes for `bytes`.
pub uninterp spec fn base64_standard_encoded(bytes: Seq<u8>) -> Seq<char>;

/// What base64's `STANDARD` engine reads from `text`: the bytes, or nothing
/// when `text` is not canonical padded base64.
pub uninterp spec fn base64_standard_decoded(text: Seq<char>) -> Option<Seq<u8>>;

/// A character of the standard base64 alphabet, or the padding `=`.
pub open spec fn base64_char(c: char) -> bool {
    ('A' <= c && c <= 'Z') || ('a' <= c && c <= 'z') || ('0' <= c && c <= '9') || c == '+' || c
        == '/' || c == '='
}

/// The standard base64 alphabet: the symbol of each 6-bit value.
pub open spec fn base64_alphabet() -> Seq<char> {
    "ABCDEFGHIJKLMNOPQRSTUVWXYZabcdefghijklmnopqrstuvwxyz0123456789+/"@
}

/// Calls `Engine::encode` of `base64::engine::general_purpose::STANDARD`.
/// Claimed of it, from the crate's source: the text is the named encoding of
/// the bytes; it uses only the standard alphabet and `=`; it is empty only
/// for empty input; and the same engine's `decode` reads the bytes back
/// (the encoding is canonical: padded, no trailing bits); and the first
/// symbol is that of the top six bits of the first byte. The input bound
/// keeps the engine's output length computation from overflowing, where it
/// would panic.
#[verifier::external_body]
pub(crate) fn base64_encode(bytes: &[u8]) -> (r: String)
    requires
        bytes@.len() <= usize::MAX / 2,
    ensures
        r@ == base64_standard_encoded(bytes@),
        forall|i: int| 0 <= i < r@.len() ==> base64_char(#[trigger] r@[i]),
        bytes@.len() > 0 ==> r@.len() > 0 && r@[0] == base64_alphabet()[bytes@[0] as int / 4],
        base64_standard_decoded(r@) == Some(bytes@),
{
    base64::Engine::encode(&base64::engine::general_purpose::STANDARD, bytes)
}

/// Calls `Engine::decode` of `base64::engine::general_purpose::STANDARD` on
/// the bytes of `text`. Claimed of it: the result is the named decoding of
/// the text, `Err` (here `None`) where that is nothing.
#[verifier::external_body]
pub(crate) fn base64_decode(text: &str) -> (r: Option<Vec<u8>>)
    ensures
        match r {
            Some(b) => base64_standard_decoded(text@) == Some(b@),
            None => base64_standard_decoded(text@) is None,
        },
{
    match base64::Engine::decode(&base64::engine::general_purpose::STANDARD, text) {
        Ok(bytes) => Some(bytes),
        Err(_) => None,
    }
}

/// Calls `String::from_utf8`: the text the bytes encode when they are valid
/// UTF-8 (std's documented behaviour), else `Err` (here `None`).
#[verifier::external_body]
pub(crate) fn string_from_utf8(bytes: Vec<u8>) -> (r: Option<String>)
    ensures
        r is Some <==> valid_utf8(bytes@),
        r matches Some(s) ==> s@ == decode_utf8(bytes@),
{
    match String::from_utf8(bytes) {
        Ok(s) => Some(s),
        Err(_) => None,
    }
}

} // verus!

//! Base64 text in the standard and the URL-safe alphabet, both padded.

use base64::engine::general_purpose::{STANDARD, URL_SAFE};
use base64::Engine;
use vstd::prelude::*;

verus! {

/// The padded Base64 text of a byte sequence in the standard alphabet
/// (`A-Z a-z 0-9 + /`).
pub uninterp spec fn base64_standard(bytes: Seq<u8>) -> Seq<char>;

/// The bytes that padded standard Base64 text stands for; `None` where the
/// text is malformed.
pub uninterp spec fn base64_standard_parsed(text: Seq<char>) -> Option<Seq<u8>>;

/// The padded Base64 text of a byte sequence in the URL-safe alphabet
/// (`A-Z a-z 0-9 - _`).
pub uninterp spec fn base64_url_safe(bytes: Seq<u8>) -> Seq<char>;

/// The bytes that padded URL-safe Base64 text stands for; `None` where the
/// text is malformed.
pub uninterp spec fn base64_url_safe_parsed(text: Seq<char>) -> Option<Seq<u8>>;

/// Whether `c` belongs to the Base64 alphabet: letters, digits, and `+ /` in
/// the standard alphabet or `- _` in the URL-safe one.
pub open spec fn is_base64_char(c: char, url_safe: bool) -> bool {
    ('A' <= c && c <= 'Z') || ('a' <= c && c <= 'z') || ('0' <= c && c <= '9') || (if url_safe {
        c == '-' || c == '_'
    } else {
        c == '+' || c == '/'
    })
}

/// Text made of the alphabet's characters and of the padding sign `=`.
pub open spec fn base64_shaped(text: Seq<char>, url_safe: bool) -> bool {
    forall|i: int|
        0 <= i < text.len() ==> is_base64_char(#[trigger] text[i], url_safe) || text[i] == '='
}

/// `base64::DecodeError`, carried from the engine to the error of this library.
#[verifier::external_type_specification]
#[verifier::external_body]
pub struct ExDecodeError(base64::DecodeError);

/// `Engine::encode` of `base64::engine::general_purpose::STANDARD`. The text
/// depends on the bytes alone, and holds the standard alphabet and `=` only. The engine panics only where four thirds of the
/// input's length overflow `usize`, which no slice in memory reaches.
#[verifier::external_body]
pub(crate) fn encode_standard(bytes: &[u8]) -> (r: String)
    ensures
        r@ == base64_standard(bytes@),
        base64_shaped(r@, false),
{
    STANDARD.encode(bytes)
}

/// `Engine::decode` of `base64::engine::general_purpose::STANDARD` on the
/// bytes of `text`. Whether it succeeds, and with which bytes, depends on the
/// text alone; it fails on any character that is neither of the standard
/// alphabet nor `=`; text that the same engine wrote decodes to the bytes it
/// was written from.
#[verifier::external_body]
pub(crate) fn decode_standard(text: &str) -> (r: Result<Vec<u8>, base64::DecodeError>)
    ensures
        match r {
            Ok(bytes) => base64_standard_parsed(text@) == Some(bytes@),
            Err(_) => base64_standard_parsed(text@) is None,
        },
        r is Ok ==> base64_shaped(text@, false),
        forall|bytes: Seq<u8>|
            text@ == #[trigger] base64_standard(bytes) ==> r is Ok && r->Ok_0@ == bytes,
{
    STANDARD.decode(text)
}

/// `Engine::encode` of `base64::engine::general_purpose::URL_SAFE`. The text
/// depends on the bytes alone, and holds the URL-safe alphabet and `=` only. The engine panics only where four thirds of the
/// input's length overflow `usize`, which no slice in memory reaches.
#[verifier::external_body]
pub(crate) fn encode_url_safe(bytes: &[u8]) -> (r: String)
    ensures
        r@ == base64_url_safe(bytes@),
        base64_shaped(r@, true),
{
    URL_SAFE.encode(bytes)
}

/// `Engine::decode` of `base64::engine::general_purpose::URL_SAFE` on the
/// bytes of `text`. Whether it succeeds, and with which bytes, depends on the
/// text alone; it fails on any character that is neither of the URL-safe
/// alphabet nor `=`; text that the same engine wrote decodes to the bytes it
/// was written from.
#[verifier::external_body]
pub(crate) fn decode_url_safe(text: &str) -> (r: Result<Vec<u8>, base64::DecodeError>)
    ensures
        match r {
            Ok(bytes) => base64_url_safe_parsed(text@) == Some(bytes@),
            Err(_) => base64_url_safe_parsed(text@) is None,
        },
        r is Ok ==> base64_shaped(text@, true),
        forall|bytes: Seq<u8>|
            text@ == #[trigger] base64_url_safe(bytes) ==> r is Ok && r->Ok_0@ == bytes,
{
    URL_SAFE.decode(text)
}

} // verus!

//! The five codecs and the dispatch on a scheme's name.

use crate::base64_codec::{
    base64_shaped, base64_standard, base64_standard_parsed, base64_url_safe,
    base64_url_safe_parsed, decode_standard, decode_url_safe, encode_standard, encode_url_safe,
};
use crate::error::CodecError;
use crate::gzip_codec::{gunzipped_text, gzip_compress, gzip_expand, gzip_stream};
use crate::hex_codec::{
    hex_bytes, hex_decode, hex_encode, hex_text, lemma_hex_round_trip, well_formed_hex,
};
use crate::scheme::{Command, Scheme};
use crate::text::{lossy, lossy_text};
use crate::url_codec::{
    ascii_text, holds_escape, lemma_percent_round_trip, percent_decode, percent_decoded,
    percent_encode, percent_encoded,
};
use vstd::prelude::*;
use vstd::utf8::{encode_utf8, encode_utf8_decode_utf8, encode_utf8_valid_utf8};

verus! {

/// The encoded form of a text under a scheme. Only gzip can be without one,
/// where the compressor reports a failure.
pub open spec fn encoded(scheme: Scheme, text: Seq<char>) -> Option<Seq<char>> {
    let bytes = encode_utf8(text);
    match scheme {
        Scheme::Base64 => Some(base64_standard(bytes)),
        Scheme::Base64Url => Some(base64_url_safe(bytes)),
        Scheme::Url => Some(ascii_text(percent_encoded(bytes))),
        Scheme::Hex => Some(hex_text(bytes)),
        Scheme::Gzip => match gzip_stream(bytes) {
            Some(stream) => Some(base64_standard(stream)),
            None => None,
        },
    }
}

/// The text that an input decodes to under a scheme; `None` where the input
/// has not the scheme's form. Decoded bytes that are not UTF-8 read as the
/// empty text, except under gzip, where they make the stream unreadable.
pub open spec fn decoded(scheme: Scheme, input: Seq<char>) -> Option<Seq<char>> {
    match scheme {
        Scheme::Base64 => match base64_standard_parsed(input) {
            Some(bytes) => Some(lossy(bytes)),
            None => None,
        },
        Scheme::Base64Url => match base64_url_safe_parsed(input) {
            Some(bytes) => Some(lossy(bytes)),
            None => None,
        },
        Scheme::Url => Some(lossy(percent_decoded(encode_utf8(input)))),
        Scheme::Hex => if well_formed_hex(input) {
            Some(lossy(hex_bytes(input)))
        } else {
            None
        },
        Scheme::Gzip => match base64_standard_parsed(input) {
            Some(stream) => gunzipped_text(stream),
            None => None,
        },
    }
}

/// The texts that decoding gives back after encoding. Under url these are the
/// texts in which no `%` is followed by two hexadecimal digits: such a `%` is
/// written as it is, and would be read as an escape.
pub open spec fn round_trips(scheme: Scheme, text: Seq<char>) -> bool {
    scheme == Scheme::Url ==> !holds_escape(encode_utf8(text))
}

/// Whether a text has the look of the Base64 that a scheme writes and reads:
/// its alphabet and the padding sign, nothing else. The schemes that are not
/// built on Base64 ask nothing here.
pub open spec fn alphabet_kept(scheme: Scheme, text: Seq<char>) -> bool {
    match scheme {
        Scheme::Base64 | Scheme::Gzip => base64_shaped(text, false),
        Scheme::Base64Url => base64_shaped(text, true),
        _ => true,
    }
}

/// What `encode` owes for a scheme and a text.
pub open spec fn encode_outcome(
    scheme: Scheme,
    text: Seq<char>,
    r: Result<String, CodecError>,
) -> bool {
    match encoded(scheme, text) {
        Some(out) => r is Ok && r->Ok_0@ == out,
        None => r matches Err(CodecError::EncodeError(_)),
    }
}

/// What `decode` owes for a scheme and an input.
pub open spec fn decode_outcome(
    scheme: Scheme,
    input: Seq<char>,
    r: Result<String, CodecError>,
) -> bool {
    match decoded(scheme, input) {
        Some(out) => r is Ok && r->Ok_0@ == out,
        None => r matches Err(CodecError::DecodeError(_)),
    }
}

/// Under hex and url the decoded form of an encoded text is the text itself,
/// for every text that round-trips.
pub proof fn lemma_decoded_encoded(scheme: Scheme, text: Seq<char>)
    requires
        scheme == Scheme::Hex || scheme == Scheme::Url,
        round_trips(scheme, text),
    ensures
        encoded(scheme, text) is Some,
        decoded(scheme, encoded(scheme, text)->Some_0) == Some(text),
{
    let bytes = encode_utf8(text);
    encode_utf8_valid_utf8(text);
    encode_utf8_decode_utf8(text);
    if scheme == Scheme::Hex {
        lemma_hex_round_trip(bytes);
    } else {
        lemma_percent_round_trip(bytes);
    }
}

/// Encodes a text under a scheme.
pub fn encode(scheme: Scheme, input: &str) -> (r: Result<String, CodecError>)
    ensures
        encode_outcome(scheme, input@, r),
        scheme != Scheme::Gzip ==> r is Ok,
        r is Ok ==> alphabet_kept(scheme, r->Ok_0@),
{
    match scheme {
        Scheme::Base64 => Ok(encode_standard(input.as_bytes())),
        Scheme::Base64Url => Ok(encode_url_safe(input.as_bytes())),
        Scheme::Url => Ok(percent_encode(input)),
        Scheme::Hex => Ok(hex_encode(input.as_bytes())),
        Scheme::Gzip => match gzip_compress(input.as_bytes()) {
            Ok(stream) => Ok(encode_standard(stream.as_slice())),
            Err(e) => Err(CodecError::EncodeError(e.to_string())),
        },
    }
}

/// Decodes an input under a scheme. Only the input's form can make it fail;
/// and what `encode` made of a text that round-trips decodes to that text.
pub fn decode(scheme: Scheme, input: &str) -> (r: Result<String, CodecError>)
    ensures
        decode_outcome(scheme, input@, r),
        scheme == Scheme::Url ==> r is Ok,
        r is Ok ==> alphabet_kept(scheme, input@),
        forall|text: Seq<char>|
            round_trips(scheme, text) && #[trigger] encoded(scheme, text) == Some(input@) ==> r
                is Ok && r->Ok_0@ == text,
{
    proof {
        assert forall|text: Seq<char>|
            round_trips(scheme, text) && #[trigger] encoded(scheme, text) == Some(
                input@,
            ) implies decoded(scheme, input@) == Some(text) || (scheme != Scheme::Hex && scheme
            != Scheme::Url) by {
            if scheme == Scheme::Hex || scheme == Scheme::Url {
                lemma_decoded_encoded(scheme, text);
            }
        }
    }
    match scheme {
        Scheme::Base64 => match decode_standard(input) {
            Ok(bytes) => {
                proof {
                    assert forall|text: Seq<char>| #[trigger]
                        encoded(scheme, text) == Some(input@) implies lossy(bytes@) == text by {
                        encode_utf8_valid_utf8(text);
                        encode_utf8_decode_utf8(text);
                    }
                }
                Ok(lossy_text(bytes))
            },
            Err(e) => Err(CodecError::DecodeError(e.to_string())),
        },
        Scheme::Base64Url => match decode_url_safe(input) {
            Ok(bytes) => {
                proof {
                    assert forall|text: Seq<char>| #[trigger]
                        encoded(scheme, text) == Some(input@) implies lossy(bytes@) == text by {
                        encode_utf8_valid_utf8(text);
                        encode_utf8_decode_utf8(text);
                    }
                }
                Ok(lossy_text(bytes))
            },
            Err(e) => Err(CodecError::DecodeError(e.to_string())),
        },
        Scheme::Url => match percent_decode(input) {
            Ok(text) => Ok(text),
            Err(_) => Ok(String::new()),
        },
        Scheme::Hex => match hex_decode(input) {
            Ok(bytes) => Ok(lossy_text(bytes)),
            Err(e) => Err(CodecError::DecodeError(e.to_string())),
        },
        Scheme::Gzip => match decode_standard(input) {
            Ok(stream) => match gzip_expand(stream.as_slice()) {
                Ok(text) => Ok(text),
                Err(e) => Err(CodecError::DecodeError(e.to_string())),
            },
            Err(e) => Err(CodecError::DecodeError(e.to_string())),
        },
    }
}

/// Encodes a text under the scheme that `format` names. A name that is none
/// of the five is refused, and handed back in the error.
pub fn encode_text(format: &str, input: &str) -> (r: Result<String, CodecError>)
    ensures
        match Scheme::named(format@) {
            Some(scheme) => {
                &&& encode_outcome(scheme, input@, r)
                &&& scheme != Scheme::Gzip ==> r is Ok
                &&& r is Ok ==> alphabet_kept(scheme, r->Ok_0@)
            },
            None => r matches Err(CodecError::UnsupportedFormat(name)) && name@ == format@,
        },
{
    match Scheme::from_name(format) {
        Some(scheme) => encode(scheme, input),
        None => Err(CodecError::UnsupportedFormat(format.to_owned())),
    }
}

/// Decodes an input under the scheme that `format` names. A name that is none
/// of the five is refused, and handed back in the error.
pub fn decode_text(format: &str, input: &str) -> (r: Result<String, CodecError>)
    ensures
        match Scheme::named(format@) {
            Some(scheme) => {
                &&& decode_outcome(scheme, input@, r)
                &&& scheme == Scheme::Url ==> r is Ok
                &&& r is Ok ==> alphabet_kept(scheme, input@)
                &&& forall|text: Seq<char>|
                    round_trips(scheme, text) && #[trigger] encoded(scheme, text) == Some(input@)
                        ==> r is Ok && r->Ok_0@ == text
            },
            None => r matches Err(CodecError::UnsupportedFormat(name)) && name@ == format@,
        },
{
    match Scheme::from_name(format) {
        Some(scheme) => decode(scheme, input),
        None => Err(CodecError::UnsupportedFormat(format.to_owned())),
    }
}

/// What a command makes of an input under a scheme; `None` where the codec
/// fails.
pub open spec fn transformed(command: Command, scheme: Scheme, input: Seq<char>) -> Option<
    Seq<char>,
> {
    match command {
        Command::Encode => encoded(scheme, input),
        Command::Decode => decoded(scheme, input),
    }
}

/// What `transform` owes for a command, a scheme name and an input.
pub open spec fn transform_outcome(
    command: Command,
    format: Seq<char>,
    input: Seq<char>,
    r: Result<String, CodecError>,
) -> bool {
    match Scheme::named(format) {
        None => r matches Err(CodecError::UnsupportedFormat(name)) && name@ == format,
        Some(scheme) => match transformed(command, scheme, input) {
            Some(out) => r is Ok && r->Ok_0@ == out,
            None => match command {
                Command::Encode => r matches Err(CodecError::EncodeError(_)),
                Command::Decode => r matches Err(CodecError::DecodeError(_)),
            },
        },
    }
}

/// Routes a request to the half of the codec that the command asks for.
pub fn transform(command: Command, format: &str, input: &str) -> (r: Result<String, CodecError>)
    ensures
        transform_outcome(command, format@, input@, r),
{
    match command {
        Command::Encode => encode_text(format, input),
        Command::Decode => decode_text(format, input),
    }
}

} // verus!

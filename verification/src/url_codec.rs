//! Percent-encoding of control characters and of everything outside ASCII.

use crate::hex_codec::{hex_value, is_hex_char};
use percent_encoding::{percent_decode_str, utf8_percent_encode, CONTROLS};
use vstd::prelude::*;
use vstd::utf8::{
    decode_utf8, encode_utf8, is_ascii_chars, is_ascii_chars_encode_utf8, valid_utf8,
};

verus! {

/// Whether a byte is written as an escape: the C0 controls, DEL, and every
/// byte outside ASCII. All other bytes, the space and `%` among them, are
/// written as they are.
pub open spec fn is_escaped_byte(b: u8) -> bool {
    b < 0x20 || b >= 0x7f
}

/// The uppercase digit for a value below 16.
pub open spec fn upper_hex_digit(n: int) -> u8 {
    if n < 10 {
        (48 + n) as u8
    } else {
        (55 + n) as u8
    }
}

/// What one byte is written as: `%` and two uppercase digits, or the byte
/// itself.
pub open spec fn escaped_byte(b: u8) -> Seq<u8> {
    if is_escaped_byte(b) {
        seq![0x25u8, upper_hex_digit(b as int / 16), upper_hex_digit(b as int % 16)]
    } else {
        seq![b]
    }
}

/// The percent-encoding of a byte sequence, as ASCII bytes.
pub open spec fn percent_encoded(bytes: Seq<u8>) -> Seq<u8>
    decreases bytes.len(),
{
    if bytes.len() == 0 {
        Seq::empty()
    } else {
        escaped_byte(bytes[0]) + percent_encoded(bytes.drop_first())
    }
}

/// Whether the bytes begin with `%` and two hexadecimal digits.
pub open spec fn starts_with_escape(bytes: Seq<u8>) -> bool {
    bytes.len() >= 3 && bytes[0] == 0x25 && is_hex_char(bytes[1] as char) && is_hex_char(
        bytes[2] as char,
    )
}

/// The bytes that percent-encoded bytes stand for: every `%` with two
/// hexadecimal digits behind it becomes one byte, all else stays.
pub open spec fn percent_decoded(bytes: Seq<u8>) -> Seq<u8>
    decreases bytes.len(),
{
    if bytes.len() == 0 {
        Seq::empty()
    } else if starts_with_escape(bytes) {
        seq![(16 * hex_value(bytes[1] as char) + hex_value(bytes[2] as char)) as u8]
            + percent_decoded(bytes.skip(3))
    } else {
        seq![bytes[0]] + percent_decoded(bytes.drop_first())
    }
}

/// ASCII bytes as text, one character per byte.
pub open spec fn ascii_text(bytes: Seq<u8>) -> Seq<char> {
    Seq::new(bytes.len(), |i: int| bytes[i] as char)
}

/// `std::str::Utf8Error`: the bytes were not UTF-8.
#[verifier::external_type_specification]
#[verifier::external_body]
pub struct ExUtf8Error(std::str::Utf8Error);

/// `percent_encoding::utf8_percent_encode` with the set `CONTROLS`, collected
/// into a string: each UTF-8 byte of `text` that is a control character or
/// lies outside ASCII becomes `%XX` with uppercase digits, every other byte
/// stays.
#[verifier::external_body]
pub(crate) fn percent_encode(text: &str) -> (r: String)
    ensures
        r@ == ascii_text(percent_encoded(encode_utf8(text@))),
{
    utf8_percent_encode(text, CONTROLS).to_string()
}

/// `percent_encoding::percent_decode_str` followed by `decode_utf8`: the
/// escapes among the UTF-8 bytes of `text` are replaced, and the outcome is
/// read as UTF-8, which fails exactly where it is none.
#[verifier::external_body]
pub(crate) fn percent_decode(text: &str) -> (r: Result<String, std::str::Utf8Error>)
    ensures
        r is Ok <==> valid_utf8(percent_decoded(encode_utf8(text@))),
        r is Ok ==> r->Ok_0@ == decode_utf8(percent_decoded(encode_utf8(text@))),
{
    Ok(percent_decode_str(text).decode_utf8()?.into_owned())
}

/// Whether somewhere in the bytes a `%` is followed by two hexadecimal digits.
pub open spec fn holds_escape(bytes: Seq<u8>) -> bool {
    exists|i: int| 0 <= i <= bytes.len() && starts_with_escape(#[trigger] bytes.skip(i))
}

/// The written form holds printable ASCII only: no control character and no
/// byte outside ASCII is left in it, each stands there as `%XX`. As text it
/// therefore has the bytes that it was made of.
pub proof fn lemma_encoded_is_printable(bytes: Seq<u8>)
    ensures
        forall|i: int|
            0 <= i < percent_encoded(bytes).len() ==> !is_escaped_byte(
                #[trigger] percent_encoded(bytes)[i],
            ),
        encode_utf8(ascii_text(percent_encoded(bytes))) == percent_encoded(bytes),
    decreases bytes.len(),
{
    let out = percent_encoded(bytes);
    if bytes.len() > 0 {
        lemma_encoded_is_printable(bytes.drop_first());
        let b = bytes[0];
        let head = escaped_byte(b);
        let rest = percent_encoded(bytes.drop_first());
        assert(out == head + rest);
        assert(0 <= b as int / 16 < 16 && 0 <= b as int % 16 < 16);
        assert forall|i: int| 0 <= i < out.len() implies !is_escaped_byte(#[trigger] out[i]) by {
            if i >= head.len() {
                assert(out[i] == rest[i - head.len()]);
            }
        }
    }
    let chars = ascii_text(out);
    assert(is_ascii_chars(chars)) by {
        assert forall|i: int| 0 <= i < chars.len() implies '\0' <= #[trigger] chars[i]
            <= '\u{7f}' by {
            assert(!is_escaped_byte(out[i]));
        }
    }
    is_ascii_chars_encode_utf8(chars);
    assert forall|i: int| 0 <= i < out.len() implies encode_utf8(chars)[i] == out[i] by {
        assert(chars[i] as u8 == encode_utf8(chars)[i]);
        assert(chars[i] == out[i] as char);
    }
    assert(encode_utf8(chars) =~= out);
}

/// Bytes among which none is a control character or outside ASCII are
/// written as they are.
pub proof fn lemma_printable_is_kept(bytes: Seq<u8>)
    requires
        forall|i: int| 0 <= i < bytes.len() ==> !is_escaped_byte(#[trigger] bytes[i]),
    ensures
        percent_encoded(bytes) == bytes,
    decreases bytes.len(),
{
    if bytes.len() > 0 {
        let rest = bytes.drop_first();
        assert forall|i: int| 0 <= i < rest.len() implies !is_escaped_byte(#[trigger] rest[i]) by {
            assert(rest[i] == bytes[i + 1]);
        }
        lemma_printable_is_kept(rest);
        assert(!is_escaped_byte(bytes[0]));
        assert(seq![bytes[0]] + rest =~= bytes);
    } else {
        assert(percent_encoded(bytes) =~= bytes);
    }
}

/// Two hexadecimal digits at the start of a written form were written as
/// they are.
proof fn lemma_leading_digits(bytes: Seq<u8>)
    ensures
        percent_encoded(bytes).len() >= 2 && is_hex_char(percent_encoded(bytes)[0] as char)
            && is_hex_char(percent_encoded(bytes)[1] as char) ==> bytes.len() >= 2 && bytes[0]
            == percent_encoded(bytes)[0] && bytes[1] == percent_encoded(bytes)[1],
{
    let out = percent_encoded(bytes);
    if out.len() >= 2 && is_hex_char(out[0] as char) && is_hex_char(out[1] as char) {
        assert(bytes.len() > 0);
        let rest = bytes.drop_first();
        assert(out == escaped_byte(bytes[0]) + percent_encoded(rest));
        assert(!is_escaped_byte(bytes[0]));
        assert(out[1] == percent_encoded(rest)[0]);
        assert(rest.len() > 0);
        assert(percent_encoded(rest) == escaped_byte(rest[0]) + percent_encoded(
            rest.drop_first(),
        ));
        assert(!is_escaped_byte(rest[0]));
    }
}

/// What was written reads back as the bytes it was written from.
proof fn lemma_written_reads_back(bytes: Seq<u8>)
    requires
        !holds_escape(bytes),
    ensures
        percent_decoded(percent_encoded(bytes)) == bytes,
    decreases bytes.len(),
{
    if bytes.len() > 0 {
        let b = bytes[0];
        let rest = bytes.drop_first();
        let out = percent_encoded(bytes);
        let out_rest = percent_encoded(rest);
        assert(!holds_escape(rest)) by {
            if holds_escape(rest) {
                let i = choose|i: int|
                    0 <= i <= rest.len() && starts_with_escape(#[trigger] rest.skip(i));
                assert(rest.skip(i) =~= bytes.skip(i + 1));
            }
        }
        lemma_written_reads_back(rest);
        assert(out == escaped_byte(b) + out_rest);
        if is_escaped_byte(b) {
            let hi = b as int / 16;
            let lo = b as int % 16;
            assert(0 <= hi < 16 && 0 <= lo < 16 && 16 * hi + lo == b);
            assert(is_hex_char(upper_hex_digit(hi) as char) && hex_value(
                upper_hex_digit(hi) as char,
            ) == hi);
            assert(is_hex_char(upper_hex_digit(lo) as char) && hex_value(
                upper_hex_digit(lo) as char,
            ) == lo);
            assert(out.skip(3) =~= out_rest);
            assert(starts_with_escape(out));
            assert(percent_decoded(out) =~= seq![b] + percent_decoded(out_rest));
        } else {
            assert(out.drop_first() =~= out_rest);
            if starts_with_escape(out) {
                lemma_leading_digits(rest);
                assert(out[1] == out_rest[0] && out[2] == out_rest[1]);
                assert(bytes.skip(0) =~= bytes);
                assert(starts_with_escape(bytes.skip(0)));
            }
            assert(percent_decoded(out) =~= seq![b] + percent_decoded(out_rest));
        }
        assert(seq![b] + rest =~= bytes);
    } else {
        assert(percent_encoded(bytes) =~= bytes);
    }
}

/// Reading back what was written gives the bytes that were written, unless
/// they held a `%` with two hexadecimal digits behind it.
pub proof fn lemma_percent_round_trip(bytes: Seq<u8>)
    requires
        !holds_escape(bytes),
    ensures
        encode_utf8(ascii_text(percent_encoded(bytes))) == percent_encoded(bytes),
        percent_decoded(percent_encoded(bytes)) == bytes,
{
    lemma_encoded_is_printable(bytes);
    lemma_written_reads_back(bytes);
}

} // verus!

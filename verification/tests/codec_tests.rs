use base64::engine::general_purpose::STANDARD;
use base64::Engine;
use flate2::write::GzEncoder;
use flate2::Compression;
use std::io::Write;
use text_codec::codec::{decode, decode_text, encode, encode_text, transform};
use text_codec::error::CodecError;
use text_codec::scheme::{Command, Scheme};

fn round_trip(format: &str, text: &str) {
    let encoded = encode_text(format, text).unwrap();
    assert_eq!(decode_text(format, &encoded), Ok(text.to_string()));
}

#[test]
fn base64_encodes_hello() {
    assert_eq!(encode_text("base64", "hello"), Ok("aGVsbG8=".to_string()));
}

#[test]
fn base64_decodes_hello() {
    assert_eq!(decode_text("base64", "aGVsbG8="), Ok("hello".to_string()));
}

#[test]
fn base64_pads_to_four() {
    assert_eq!(encode_text("base64", ""), Ok("".to_string()));
    assert_eq!(encode_text("base64", "a"), Ok("YQ==".to_string()));
    assert_eq!(encode_text("base64", "ab"), Ok("YWI=".to_string()));
    assert_eq!(encode_text("base64", "abc"), Ok("YWJj".to_string()));
}

#[test]
fn base64_alphabets_differ_in_two_characters() {
    assert_eq!(encode_text("base64", "~~~"), Ok("fn5+".to_string()));
    assert_eq!(encode_text("base64-url", "~~~"), Ok("fn5-".to_string()));
    assert_eq!(encode_text("base64", "???"), Ok("Pz8/".to_string()));
    assert_eq!(encode_text("base64-url", "???"), Ok("Pz8_".to_string()));
}

#[test]
fn base64_url_keeps_padding() {
    assert_eq!(encode_text("base64-url", "hello"), Ok("aGVsbG8=".to_string()));
    assert_eq!(decode_text("base64-url", "aGVsbG8="), Ok("hello".to_string()));
    assert!(matches!(decode_text("base64-url", "aGVsbG8"), Err(CodecError::DecodeError(_))));
}

#[test]
fn base64_decode_keeps_to_its_alphabet() {
    assert_eq!(decode_text("base64-url", "fn5-"), Ok("~~~".to_string()));
    assert!(matches!(decode_text("base64", "fn5-"), Err(CodecError::DecodeError(_))));
    assert!(matches!(decode_text("base64-url", "fn5+"), Err(CodecError::DecodeError(_))));
}

#[test]
fn hex_encodes_ab() {
    assert_eq!(encode_text("hex", "AB"), Ok("4142".to_string()));
}

#[test]
fn hex_decodes_ab() {
    assert_eq!(decode_text("hex", "4142"), Ok("AB".to_string()));
}

#[test]
fn hex_writes_lowercase_and_reads_both_cases() {
    assert_eq!(encode_text("hex", "Jo\u{e9}"), Ok("4a6fc3a9".to_string()));
    assert_eq!(decode_text("hex", "4A6FC3A9"), Ok("Jo\u{e9}".to_string()));
    assert_eq!(decode_text("hex", "4a6Fc3A9"), Ok("Jo\u{e9}".to_string()));
    assert_eq!(decode_text("hex", ""), Ok("".to_string()));
}

#[test]
fn url_escapes_controls_only() {
    assert_eq!(encode_text("url", "a b\n"), Ok("a b%0A".to_string()));
    assert_eq!(encode_text("url", "\t\r\u{7f}"), Ok("%09%0D%7F".to_string()));
    assert_eq!(encode_text("url", "100% & /?#~"), Ok("100% & /?#~".to_string()));
    assert_eq!(encode_text("url", "\u{0}\u{1f} "), Ok("%00%1F ".to_string()));
}

#[test]
fn url_escapes_what_is_outside_ascii() {
    assert_eq!(encode_text("url", "\u{e9}"), Ok("%C3%A9".to_string()));
    assert_eq!(encode_text("url", "\u{65e5}"), Ok("%E6%97%A5".to_string()));
}

#[test]
fn url_decodes_escapes() {
    assert_eq!(decode_text("url", "a%20b%0A"), Ok("a b\n".to_string()));
    assert_eq!(decode_text("url", "%c3%a9%C3%A9"), Ok("\u{e9}\u{e9}".to_string()));
    assert_eq!(decode_text("url", "%41%4a"), Ok("AJ".to_string()));
}

#[test]
fn url_decode_leaves_what_is_no_escape() {
    assert_eq!(decode_text("url", "100%"), Ok("100%".to_string()));
    assert_eq!(decode_text("url", "%4"), Ok("%4".to_string()));
    assert_eq!(decode_text("url", "%zz%4g"), Ok("%zz%4g".to_string()));
    assert_eq!(decode_text("url", "%%41"), Ok("%A".to_string()));
    assert_eq!(decode_text("url", ""), Ok("".to_string()));
}

#[test]
fn url_round_trip_needs_no_escape_in_the_text() {
    round_trip("url", "a b\n\tc \u{e9} 100% %4 %zz");
    let written = encode_text("url", "%41").unwrap();
    assert_eq!(written, "%41");
    assert_eq!(decode_text("url", &written), Ok("A".to_string()));
}

#[test]
fn gzip_text_is_base64_of_a_gzip_stream() {
    let written = encode_text("gzip", "hello").unwrap();
    assert!(written.starts_with("H4sI"));
    assert_ne!(written, "hello");
    assert_eq!(decode_text("gzip", &written), Ok("hello".to_string()));
}

#[test]
fn gzip_encoding_is_repeatable() {
    assert_eq!(encode_text("gzip", "same text"), encode_text("gzip", "same text"));
}

#[test]
fn round_trips_by_scheme() {
    let texts = ["", "hello", "a b\n\tc", "Jo\u{e9} \u{65e5}\u{672c}\u{8a9e} \u{1f600}", "+/=-_%"];
    for format in ["base64", "base64-url", "hex", "gzip", "url"] {
        for text in texts {
            round_trip(format, text);
        }
    }
}

#[test]
fn round_trip_of_a_long_text() {
    let text = "abc \u{e9}\n".repeat(5000);
    for format in ["base64", "base64-url", "hex", "gzip", "url"] {
        round_trip(format, &text);
    }
}

#[test]
fn unsupported_scheme_is_refused() {
    assert_eq!(
        encode_text("rot13", "x"),
        Err(CodecError::UnsupportedFormat("rot13".to_string()))
    );
    assert_eq!(
        decode_text("rot13", "x"),
        Err(CodecError::UnsupportedFormat("rot13".to_string()))
    );
}

#[test]
fn scheme_names_are_matched_as_they_stand() {
    assert!(matches!(encode_text("Base64", "x"), Err(CodecError::UnsupportedFormat(_))));
    assert!(matches!(encode_text("", "x"), Err(CodecError::UnsupportedFormat(_))));
    assert!(matches!(decode_text("base64_url", "x"), Err(CodecError::UnsupportedFormat(_))));
    assert!(matches!(decode_text("hex ", "00"), Err(CodecError::UnsupportedFormat(_))));
}

#[test]
fn malformed_hex_is_a_decode_error() {
    assert!(matches!(decode_text("hex", "zz"), Err(CodecError::DecodeError(_))));
    assert!(matches!(decode_text("hex", "abc"), Err(CodecError::DecodeError(_))));
    assert!(matches!(decode_text("hex", "4 "), Err(CodecError::DecodeError(_))));
    assert!(matches!(decode_text("hex", "\u{e9}"), Err(CodecError::DecodeError(_))));
    assert!(matches!(decode_text("hex", "\u{e9}0"), Err(CodecError::DecodeError(_))));
}

#[test]
fn malformed_base64_is_a_decode_error() {
    assert!(matches!(
        decode_text("base64", "not valid base64!!"),
        Err(CodecError::DecodeError(_))
    ));
    assert!(matches!(decode_text("base64", "aGVsbG8"), Err(CodecError::DecodeError(_))));
    assert!(matches!(decode_text("base64", "a==="), Err(CodecError::DecodeError(_))));
}

#[test]
fn malformed_gzip_is_a_decode_error() {
    assert!(matches!(decode_text("gzip", "notbase64orgzip"), Err(CodecError::DecodeError(_))));
    assert!(matches!(decode_text("gzip", "aGVsbG8="), Err(CodecError::DecodeError(_))));
    assert!(matches!(decode_text("gzip", ""), Err(CodecError::DecodeError(_))));
}

#[test]
fn truncated_gzip_is_a_decode_error() {
    let written = encode_text("gzip", "hello hello hello hello").unwrap();
    let cut = &written[..written.len() - 8];
    assert!(matches!(decode_text("gzip", cut), Err(CodecError::DecodeError(_))));
}

#[test]
fn decode_error_holds_a_cause() {
    match decode_text("hex", "abc") {
        Err(CodecError::DecodeError(cause)) => assert_eq!(cause, "Odd number of digits"),
        other => panic!("{:?}", other),
    }
    match decode_text("hex", "zz") {
        Err(e) => assert!(!e.message().is_empty()),
        other => panic!("{:?}", other),
    }
}

#[test]
fn bytes_that_are_no_text_decode_to_nothing() {
    assert_eq!(decode_text("hex", "ff"), Ok("".to_string()));
    assert_eq!(decode_text("hex", "41ff42"), Ok("".to_string()));
    assert_eq!(decode_text("base64", "/w=="), Ok("".to_string()));
    assert_eq!(decode_text("base64-url", "_w=="), Ok("".to_string()));
    assert_eq!(decode_text("url", "a%FFb"), Ok("".to_string()));
}

#[test]
fn typed_dispatch_agrees_with_names() {
    assert_eq!(encode(Scheme::Base64, "hello"), encode_text("base64", "hello"));
    assert_eq!(encode(Scheme::Base64Url, "???"), encode_text("base64-url", "???"));
    assert_eq!(encode(Scheme::Url, "a\n"), encode_text("url", "a\n"));
    assert_eq!(encode(Scheme::Hex, "AB"), encode_text("hex", "AB"));
    assert_eq!(encode(Scheme::Gzip, "AB"), encode_text("gzip", "AB"));
    assert_eq!(decode(Scheme::Hex, "4142"), Ok("AB".to_string()));
    assert_eq!(decode(Scheme::Url, "%41"), Ok("A".to_string()));
    assert_eq!(decode(Scheme::Base64, "aGVsbG8="), Ok("hello".to_string()));
    assert_eq!(decode(Scheme::Base64Url, "Pz8_"), Ok("???".to_string()));
}

#[test]
fn transform_routes_by_command() {
    assert_eq!(transform(Command::Encode, "hex", "AB"), Ok("4142".to_string()));
    assert_eq!(transform(Command::Decode, "hex", "4142"), Ok("AB".to_string()));
    assert_eq!(transform(Command::Encode, "base64", "hello"), Ok("aGVsbG8=".to_string()));
    assert_eq!(transform(Command::Decode, "base64", "aGVsbG8="), Ok("hello".to_string()));
    assert_eq!(
        transform(Command::Encode, "rot13", "x"),
        Err(CodecError::UnsupportedFormat("rot13".to_string()))
    );
    assert!(matches!(transform(Command::Decode, "hex", "4"), Err(CodecError::DecodeError(_))));
}

#[test]
fn encoded_text_keeps_to_the_alphabet() {
    let text = "Jo\u{e9} \u{65e5}\u{672c}\u{8a9e} ~~~???\n";
    let standard = encode_text("base64", text).unwrap();
    assert!(standard.chars().all(|c| c.is_ascii_alphanumeric() || "+/=".contains(c)));
    let url_safe = encode_text("base64-url", text).unwrap();
    assert!(url_safe.chars().all(|c| c.is_ascii_alphanumeric() || "-_=".contains(c)));
    let zipped = encode_text("gzip", text).unwrap();
    assert!(zipped.chars().all(|c| c.is_ascii_alphanumeric() || "+/=".contains(c)));
    let escaped = encode_text("url", text).unwrap();
    assert!(escaped.chars().all(|c| (' '..='~').contains(&c)));
    assert_eq!(encode_text("url", "plain text: 100%"), Ok("plain text: 100%".to_string()));
}

#[test]
fn gzip_reads_a_stream_made_elsewhere() {
    assert_eq!(
        decode_text("gzip", "H4sIAAAAAAAAA8tIzcnJBwCGphA2BQAAAA=="),
        Ok("hello".to_string())
    );
}

#[test]
fn gzip_content_that_is_no_text_is_a_decode_error() {
    let mut encoder = GzEncoder::new(Vec::new(), Compression::default());
    encoder.write_all(&[0xff, 0xfe]).unwrap();
    let stream = encoder.finish().unwrap();
    let input = STANDARD.encode(stream);
    assert!(matches!(decode_text("gzip", &input), Err(CodecError::DecodeError(_))));
}

#[test]
fn gzip_of_nothing_round_trips() {
    let written = encode_text("gzip", "").unwrap();
    assert!(!written.is_empty());
    assert_eq!(decode_text("gzip", &written), Ok("".to_string()));
}

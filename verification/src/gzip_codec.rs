//! Gzip streams held in memory.

use flate2::read::GzDecoder;
use flate2::write::GzEncoder;
use flate2::Compression;
use std::io::{Read, Write};
use vstd::prelude::*;
use vstd::utf8::encode_utf8;

verus! {

/// The gzip stream of a byte sequence at the default compression level;
/// `None` where the compressor reports a failure.
pub uninterp spec fn gzip_stream(bytes: Seq<u8>) -> Option<Seq<u8>>;

/// The text that a gzip stream expands to; `None` where the stream is corrupt
/// or its content is not UTF-8.
pub uninterp spec fn gunzipped_text(stream: Seq<u8>) -> Option<Seq<char>>;

/// `std::io::Error`, as the compressor and the expander report it.
#[verifier::external_type_specification]
#[verifier::external_body]
pub struct ExIoError(std::io::Error);

/// `flate2::write::GzEncoder` over an empty `Vec`, at `Compression::default()`:
/// the bytes are written and the stream is finished. The header carries no
/// time stamp and no host system, so the stream depends on the bytes alone.
#[verifier::external_body]
pub(crate) fn gzip_compress(bytes: &[u8]) -> (r: Result<Vec<u8>, std::io::Error>)
    ensures
        match r {
            Ok(stream) => gzip_stream(bytes@) == Some(stream@),
            Err(_) => gzip_stream(bytes@) is None,
        },
{
    let mut encoder = GzEncoder::new(Vec::new(), Compression::default());
    encoder.write_all(bytes)?;
    encoder.finish()
}

/// `flate2::read::GzDecoder` over `stream`, read to its end as a string.
/// Whether it succeeds, and with which text, depends on the stream alone; the
/// stream that the compressor made of a text's UTF-8 bytes expands to that
/// text.
#[verifier::external_body]
pub(crate) fn gzip_expand(stream: &[u8]) -> (r: Result<String, std::io::Error>)
    ensures
        match r {
            Ok(text) => gunzipped_text(stream@) == Some(text@),
            Err(_) => gunzipped_text(stream@) is None,
        },
        forall|text: Seq<char>|
            #[trigger] gzip_stream(encode_utf8(text)) == Some(stream@) ==> r is Ok && r->Ok_0@
                == text,
{
    let mut decoder = GzDecoder::new(stream);
    let mut text = String::new();
    decoder.read_to_string(&mut text)?;
    Ok(text)
}

} // verus!

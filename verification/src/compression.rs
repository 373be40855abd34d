//! zlib compression of byte buffers.
use flate2::Compression;
use std::io::{Read, Write};
use vstd::prelude::*;

verus! {

/// The zlib stream that flate2 writes for `input` at compression level `level`.
pub uninterp spec fn spec_zlib_compress(input: Seq<u8>, level: int) -> Seq<u8>;

/// The compression level that `compress_zlib` uses: flate2's default, level 6.
pub const DEFAULT_COMPRESSION_LEVEL: u32 = 6;

/// The bytes that flate2 reads back from the zlib stream `input`, or `None` when
/// `input` is not a zlib stream that it can read.
pub uninterp spec fn spec_zlib_decompress(input: Seq<u8>) -> Option<Seq<u8>>;

/// Calls `flate2::write::ZlibEncoder` (`new` with `Compression::new(level)`, `write_all`,
/// `finish`) on an in-memory buffer, which cannot fail to be written. The contract names the
/// stream and states that zlib, a lossless format, reads it back as the input.
#[verifier::external_body]
fn zlib_encode(input: &[u8], level: u32) -> (out: Vec<u8>)
    requires
        level <= 9,
    ensures
        out@ == spec_zlib_compress(input@, level as int),
        spec_zlib_decompress(out@) == Some(input@),
{
    let mut encoder = flate2::write::ZlibEncoder::new(Vec::new(), Compression::new(level));
    encoder.write_all(input).unwrap();
    encoder.finish().unwrap()
}

/// Calls `flate2::read::ZlibDecoder::new` and `read_to_end` on an in-memory buffer;
/// `None` when reading fails. The contract names the result.
#[verifier::external_body]
fn zlib_decode(input: &[u8]) -> (out: Option<Vec<u8>>)
    ensures
        out is None <==> spec_zlib_decompress(input@) is None,
        out matches Some(v) ==> spec_zlib_decompress(input@) == Some(v@),
{
    let mut decoder = flate2::read::ZlibDecoder::new(std::io::Cursor::new(input));
    let mut decompressed_bytes = Vec::new();
    match decoder.read_to_end(&mut decompressed_bytes) {
        Ok(_) => Some(decompressed_bytes),
        Err(_) => None,
    }
}

/// The zlib stream of `input` at flate2's default level; reading it back gives `input`.
pub fn compress_zlib(input: &[u8]) -> (out: Vec<u8>)
    ensures
        out@ == spec_zlib_compress(input@, DEFAULT_COMPRESSION_LEVEL as int),
        spec_zlib_decompress(out@) == Some(input@),
{
    zlib_encode(input, DEFAULT_COMPRESSION_LEVEL)
}

/// The bytes of the zlib stream `input`, which must be readable (see `try_decompress_zlib`
/// for a caller that cannot know it beforehand).
pub fn decompress_zlib(input: &[u8]) -> (out: Vec<u8>)
    requires
        spec_zlib_decompress(input@) is Some,
    ensures
        spec_zlib_decompress(input@) == Some(out@),
{
    match zlib_decode(input) {
        Some(v) => v,
        None => Vec::new(),
    }
}

/// The bytes of the zlib stream `input`, or `None` when it cannot be read.
pub fn try_decompress_zlib(input: &[u8]) -> (out: Option<Vec<u8>>)
    ensures
        out is None <==> spec_zlib_decompress(input@) is None,
        out matches Some(v) ==> spec_zlib_decompress(input@) == Some(v@),
{
    match zlib_decode(input) {
        Some(_) => Some(decompress_zlib(input)),
        None => None,
    }
}

} // verus!

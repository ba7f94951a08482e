//! The codec: Zstandard at its default level.
//!
//! One codec is active in a build. Its extension is part of every object
//! key, so that a download recognises the payloads that it can decode.

use crate::error::{ErrorKind, TransferError};
use vstd::prelude::*;

verus! {

/// The media type that a payload is stored with.
pub const CONTENT_TYPE: &'static str = "application/x-tar+zstd";

/// What follows the digest in the key of a payload. A download recognises
/// the payloads of this codec by it: it fetches the keys that end with it,
/// dot included, and no others.
pub const ARCHIVE_EXTENSION: &'static str = ".tar.zstd";

/// What `libcramjam::zstd::compress` makes of `data` at the default level
/// and without a declared input size: the compressed bytes, or `None` where
/// it reports an error.
pub uninterp spec fn zstd_compressed(data: Seq<u8>) -> Option<Seq<u8>>;

/// What `libcramjam::zstd::decompress` makes of `data`: the decompressed
/// bytes, or `None` where it reports an error.
pub uninterp spec fn zstd_decompressed(data: Seq<u8>) -> Option<Seq<u8>>;

/// The error type of std's I/O layer, in which the codec library reports
/// its failures. Nothing is known of a value of it.
#[verifier::external_type_specification]
#[verifier::external_body]
pub struct ExIoError(std::io::Error);

/// Whether an outcome of the codec is a success with the given bytes.
pub open spec fn yields<E>(outcome: Result<Vec<u8>, E>, bytes: Seq<u8>) -> bool {
    outcome matches Ok(out) && out@ == bytes
}

/// Calls `libcramjam::zstd::compress` into a fresh buffer. Nothing is proved
/// of the outside function: what it returns is only given the name
/// `zstd_compressed`, as a function of the input bytes.
#[verifier::external_body]
fn zstd_compress(data: &[u8]) -> (outcome: Result<Vec<u8>, std::io::Error>)
    ensures
        match outcome {
            Ok(payload) => zstd_compressed(data@) == Some(payload@),
            Err(_) => zstd_compressed(data@) is None,
        },
{
    let mut payload = Vec::new();
    libcramjam::zstd::compress(data, &mut payload, None, None)?;
    Ok(payload)
}

/// Calls `libcramjam::zstd::decompress` into a fresh buffer. Nothing is
/// proved of the outside function. What it returns is given the name
/// `zstd_decompressed`. The second clause is the promise of a lossless
/// format, which Zstandard documents itself to be; it is taken on trust: a
/// payload that `zstd_compress` produced from some bytes decompresses to
/// those bytes.
#[verifier::external_body]
fn zstd_decompress(data: &[u8]) -> (outcome: Result<Vec<u8>, std::io::Error>)
    ensures
        match outcome {
            Ok(plain) => zstd_decompressed(data@) == Some(plain@),
            Err(_) => zstd_decompressed(data@) is None,
        },
        forall|plain: Seq<u8>| #[trigger]
            zstd_compressed(plain) == Some(data@) ==> yields(outcome, plain),
{
    let mut plain = Vec::new();
    libcramjam::zstd::decompress(data, &mut plain)?;
    Ok(plain)
}

/// Calls `to_string` on an error of std's I/O layer, for its description.
/// Nothing is claimed of the text.
#[verifier::external_body]
fn describe_io_error(error: &std::io::Error) -> (text: String) {
    error.to_string()
}

/// Turns what the codec library returned into the library's own result: the
/// bytes as they are, and any error into a codec failure with its
/// description.
pub fn codec_outcome(outcome: Result<Vec<u8>, std::io::Error>) -> (result: Result<
    Vec<u8>,
    TransferError,
>)
    ensures
        match outcome {
            Ok(bytes) => result == Ok::<Vec<u8>, TransferError>(bytes),
            Err(_) => result matches Err(error) && error.kind == ErrorKind::Codec,
        },
{
    match outcome {
        Ok(bytes) => Ok(bytes),
        Err(error) => Err(TransferError::new(ErrorKind::Codec, describe_io_error(&error))),
    }
}

/// Compresses `data`. It fails exactly where the codec library reports an
/// error, and then with a codec failure.
pub fn compress(data: &[u8]) -> (result: Result<Vec<u8>, TransferError>)
    ensures
        match result {
            Ok(payload) => zstd_compressed(data@) == Some(payload@),
            Err(error) => zstd_compressed(data@) is None && error.kind == ErrorKind::Codec,
        },
{
    codec_outcome(zstd_compress(data))
}

/// Decompresses `data`. It fails exactly where the codec library reports an
/// error, and then with a codec failure. On a payload that `compress` made it
/// succeeds and gives back the bytes that were compressed.
pub fn decompress(data: &[u8]) -> (result: Result<Vec<u8>, TransferError>)
    ensures
        match result {
            Ok(plain) => zstd_decompressed(data@) == Some(plain@),
            Err(error) => zstd_decompressed(data@) is None && error.kind == ErrorKind::Codec,
        },
        forall|plain: Seq<u8>| #[trigger]
            zstd_compressed(plain) == Some(data@) ==> yields(result, plain),
{
    codec_outcome(zstd_decompress(data))
}

} // verus!

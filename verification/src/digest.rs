//! The content digest by which a stored payload is named.

use crate::hex::{hex_lower, to_hex};
use vstd::prelude::*;

verus! {

/// The MD5 digest of `data`, as the `md5` crate computes it.
pub uninterp spec fn md5_digest(data: Seq<u8>) -> Seq<u8>;

/// The name that a payload is stored under: its digest in lowercase
/// hexadecimal.
pub open spec fn content_name(payload: Seq<u8>) -> Seq<char> {
    hex_lower(md5_digest(payload))
}

/// Calls `md5::compute` and hands out the sixteen bytes of the digest.
/// Nothing is proved of the outside function: its result is only given the
/// name `md5_digest`, as a function of the bytes that were hashed.
#[verifier::external_body]
pub(crate) fn md5_compute(data: &[u8]) -> (digest: [u8; 16])
    ensures
        digest@ == md5_digest(data@),
{
    md5::compute(data).0
}

/// Renders a digest as it appears in an object key: thirty-two lowercase
/// hexadecimal digits.
pub fn digest_name(digest: &[u8; 16]) -> (name: String)
    ensures
        name@ == hex_lower(digest@),
        name@.len() == 32,
{
    to_hex(digest.as_slice())
}

/// Computes the name that a payload is stored under.
pub fn payload_name(payload: &[u8]) -> (name: String)
    ensures
        name@ == content_name(payload@),
        name@.len() == 32,
{
    let digest = md5_compute(payload);
    digest_name(&digest)
}

} // verus!

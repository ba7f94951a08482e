//! The key scheme.
//!
//! The key of a payload is `{prefix key}/{identifier}/{name}/{digest}{extension}`,
//! with the digest in lowercase hexadecimal. The part before the digest is
//! the prefix of the artifact: listing the keys under it finds every payload
//! that was stored for that identifier and name, whatever its digest.

use crate::codec::ARCHIVE_EXTENSION;
use crate::hex::{hex_lower, lemma_hex_lower_injective, to_hex};
use vstd::prelude::*;
use vstd::string::*;

verus! {

/// The prefix key that is used where none is chosen.
pub const DEFAULT_PREFIX_KEY: &'static str = "artifacts";

/// The prefix under which the payloads of one artifact are stored.
pub open spec fn prefix_spec(prefix_key: Seq<char>, identifier: Seq<char>, name: Seq<char>) -> Seq<
    char,
> {
    prefix_key + seq!['/'] + identifier + seq!['/'] + name + seq!['/']
}

/// The key below a prefix of the payload with the given digest: the prefix,
/// the digest in lowercase hexadecimal, the extension.
pub open spec fn key_under_spec(prefix: Seq<char>, digest: Seq<u8>, extension: Seq<char>) -> Seq<
    char,
> {
    prefix + hex_lower(digest) + extension
}

/// The key of the payload with the given digest.
pub open spec fn key_spec(
    prefix_key: Seq<char>,
    identifier: Seq<char>,
    name: Seq<char>,
    digest: Seq<u8>,
    extension: Seq<char>,
) -> Seq<char> {
    key_under_spec(prefix_spec(prefix_key, identifier, name), digest, extension)
}

/// Whether a key names a payload of this codec: whether it ends with the
/// codec's extension.
pub open spec fn is_archive_key(key: Seq<char>) -> bool {
    ARCHIVE_EXTENSION@.is_suffix_of(key)
}

/// Builds the prefix under which the payloads of one artifact are stored.
pub fn build_prefix(prefix_key: &str, identifier: &str, name: &str) -> (prefix: String)
    ensures
        prefix@ == prefix_spec(prefix_key@, identifier@, name@),
{
    proof {
        reveal_strlit("/");
    }
    let mut prefix = String::from_str(prefix_key);
    prefix.append("/");
    prefix.append(identifier);
    prefix.append("/");
    prefix.append(name);
    prefix.append("/");
    assert(prefix@ =~= prefix_spec(prefix_key@, identifier@, name@));
    prefix
}

/// Builds the key below `prefix` of the payload with the given digest.
pub fn key_under(prefix: &str, digest: &[u8; 16], extension: &str) -> (key: String)
    ensures
        key@ == key_under_spec(prefix@, digest@, extension@),
{
    let mut key = String::from_str(prefix);
    let digits = to_hex(digest.as_slice());
    key.append(digits.as_str());
    key.append(extension);
    key
}

/// Builds the key of the payload with the given digest.
pub fn build_key(
    prefix_key: &str,
    identifier: &str,
    name: &str,
    digest: &[u8; 16],
    extension: &str,
) -> (key: String)
    ensures
        key@ == key_spec(prefix_key@, identifier@, name@, digest@, extension@),
{
    let prefix = build_prefix(prefix_key, identifier, name);
    key_under(prefix.as_str(), digest, extension)
}

/// Tells whether `text` ends with `suffix`.
pub fn ends_with(text: &str, suffix: &str) -> (found: bool)
    ensures
        found == suffix@.is_suffix_of(text@),
{
    let n = text.unicode_len();
    let m = suffix.unicode_len();
    if m > n {
        return false;
    }
    let start: usize = n - m;
    let mut i: usize = 0;
    while i < m
        invariant
            n == text@.len(),
            m == suffix@.len(),
            start + m == n,
            i <= m,
            forall|j: int| 0 <= j < i ==> text@[start + j] == suffix@[j],
        decreases m - i,
    {
        if text.get_char(start + i) != suffix.get_char(i) {
            assert(text@.subrange(start as int, n as int)[i as int] != suffix@[i as int]);
            return false;
        }
        i += 1;
    }
    assert(suffix@ =~= text@.subrange(start as int, n as int));
    true
}

/// Tells whether a key of a listing names a payload of this codec.
pub fn is_archive(key: &str) -> (found: bool)
    ensures
        found == is_archive_key(key@),
{
    ends_with(key, ARCHIVE_EXTENSION)
}

/// Every key of an artifact starts with the prefix of that artifact,
/// whatever the digest and the extension.
pub proof fn lemma_key_starts_with_prefix(
    prefix_key: Seq<char>,
    identifier: Seq<char>,
    name: Seq<char>,
    digest: Seq<u8>,
    extension: Seq<char>,
)
    ensures
        prefix_spec(prefix_key, identifier, name).is_prefix_of(
            key_spec(prefix_key, identifier, name, digest, extension),
        ),
{
    let prefix = prefix_spec(prefix_key, identifier, name);
    let key = key_spec(prefix_key, identifier, name, digest, extension);
    assert(key.subrange(0, prefix.len() as int) =~= prefix);
}

/// The key is a function of the artifact's identity and of the digest:
/// equal inputs give equal keys.
pub proof fn lemma_key_deterministic(
    prefix_key: Seq<char>,
    identifier: Seq<char>,
    name: Seq<char>,
    digest: Seq<u8>,
    extension: Seq<char>,
    other_prefix_key: Seq<char>,
    other_identifier: Seq<char>,
    other_name: Seq<char>,
    other_digest: Seq<u8>,
    other_extension: Seq<char>,
)
    requires
        prefix_key == other_prefix_key,
        identifier == other_identifier,
        name == other_name,
        digest == other_digest,
        extension == other_extension,
    ensures
        key_spec(prefix_key, identifier, name, digest, extension) == key_spec(
            other_prefix_key,
            other_identifier,
            other_name,
            other_digest,
            other_extension,
        ),
{
}

/// Under one prefix and with one extension, payloads with different
/// digests have different keys.
pub proof fn lemma_key_tells_digest(
    prefix_key: Seq<char>,
    identifier: Seq<char>,
    name: Seq<char>,
    digest: Seq<u8>,
    other_digest: Seq<u8>,
    extension: Seq<char>,
)
    requires
        key_spec(prefix_key, identifier, name, digest, extension) == key_spec(
            prefix_key,
            identifier,
            name,
            other_digest,
            extension,
        ),
    ensures
        digest == other_digest,
{
    let prefix = prefix_spec(prefix_key, identifier, name);
    let key = key_spec(prefix_key, identifier, name, digest, extension);
    let other_key = key_spec(prefix_key, identifier, name, other_digest, extension);
    let digits = hex_lower(digest);
    let other_digits = hex_lower(other_digest);
    assert(key.len() == prefix.len() + digits.len() + extension.len());
    assert(other_key.len() == prefix.len() + other_digits.len() + extension.len());
    assert forall|i: int| 0 <= i < digits.len() implies digits[i] == other_digits[i] by {
        assert(key[prefix.len() + i] == digits[i]);
        assert(other_key[prefix.len() + i] == other_digits[i]);
    }
    assert(digits =~= other_digits);
    lemma_hex_lower_injective(digest, other_digest);
}

/// The dot belongs to the extension: a key that names a payload has it
/// before `tar`, nine characters from its end.
pub proof fn lemma_archive_key_needs_the_dot(key: Seq<char>)
    requires
        is_archive_key(key),
    ensures
        key.len() >= 9,
        key[key.len() - 9] == '.',
{
    reveal_strlit(".tar.zstd");
    assert(key.subrange(key.len() - 9, key.len() as int)[0] == '.');
}

/// A key that is built with this codec's extension is recognised as a
/// payload of this codec.
pub proof fn lemma_built_key_is_archive_key(
    prefix_key: Seq<char>,
    identifier: Seq<char>,
    name: Seq<char>,
    digest: Seq<u8>,
)
    ensures
        is_archive_key(key_spec(prefix_key, identifier, name, digest, ARCHIVE_EXTENSION@)),
{
    let key = key_spec(prefix_key, identifier, name, digest, ARCHIVE_EXTENSION@);
    assert(ARCHIVE_EXTENSION@ =~= key.subrange(
        key.len() - ARCHIVE_EXTENSION@.len(),
        key.len() as int,
    ));
}

} // verus!

//! The cache key: a digest of the primary source path, written in a form
//! that is safe as a file name.

use vstd::prelude::*;
use vstd::utf8::encode_utf8;

verus! {

/// The SHA-1 digest of a byte string.
pub uninterp spec fn sha1_of(data: Seq<u8>) -> Seq<u8>;

/// The base64 encoding of a byte string in the URL-safe alphabet, without
/// padding.
pub uninterp spec fn base64_url_of(data: Seq<u8>) -> Seq<char>;

/// The characters of the URL-safe base64 alphabet.
pub open spec fn is_url_safe(c: char) -> bool {
    ||| 'A' <= c <= 'Z'
    ||| 'a' <= c <= 'z'
    ||| '0' <= c <= '9'
    ||| c == '-'
    ||| c == '_'
}

/// The length of the unpadded base64 encoding of `n` bytes: four characters
/// for each three bytes, and two or three for one or two bytes left over.
pub open spec fn base64_len(n: nat) -> nat {
    4 * (n / 3) + if n % 3 == 0 {
        0nat
    } else {
        n % 3 + 1
    }
}

/// The cache key of a path: the base64 form of the SHA-1 digest of the path's
/// UTF-8 bytes. It depends on the text of the path and on nothing else.
pub open spec fn cache_key_of(path: Seq<char>) -> Seq<char> {
    base64_url_of(sha1_of(encode_utf8(path)))
}

/// Calls `sha1::Sha1::new`, `update` and `digest`, and takes the digest's
/// `bytes`. Claimed: the result is the SHA-1 digest of `data`, which depends
/// on `data` alone, and it has the 20 bytes of the array that `bytes` returns.
#[verifier::external_body]
pub(crate) fn sha1_digest(data: &[u8]) -> (r: Vec<u8>)
    ensures
        r@ == sha1_of(data@),
        r@.len() == 20,
{
    let mut hash = sha1::Sha1::new();
    hash.update(data);
    hash.digest().bytes().to_vec()
}

/// Calls `base64::encode_config` with `base64::URL_SAFE_NO_PAD`. Claimed: the
/// result is the encoding of `data`, which depends on `data` alone; it has the
/// length that `base64::encoded_size` computes for a configuration without
/// padding; and each of its characters is of the URL-safe table. The call
/// panics where that length overflows, which the precondition excludes.
#[verifier::external_body]
pub(crate) fn base64_url(data: &[u8]) -> (r: String)
    requires
        4 * data@.len() <= usize::MAX,
    ensures
        r@ == base64_url_of(data@),
        r@.len() == base64_len(data@.len()),
        forall|i: int| 0 <= i < r@.len() ==> is_url_safe(#[trigger] r@[i]),
{
    base64::encode_config(data, base64::URL_SAFE_NO_PAD)
}

/// The length of a cache key.
pub open spec fn key_len() -> nat {
    27
}

/// Derives the cache key of `path`. The key has 27 characters, all of them
/// letters, digits, `-` or `_`.
pub fn cache_key(path: &str) -> (r: String)
    ensures
        r@ == cache_key_of(path@),
        r@.len() == key_len(),
        forall|i: int| 0 <= i < r@.len() ==> is_url_safe(#[trigger] r@[i]),
{
    let digest = sha1_digest(path.as_bytes());
    base64_url(digest.as_slice())
}

} // verus!

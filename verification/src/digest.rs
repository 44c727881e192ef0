//! SHA-256 digests and their lowercase hexadecimal rendering.

use vstd::prelude::*;

verus! {

/// Number of bytes in a SHA-256 digest.
pub const DIGEST_BYTES: usize = 32;

/// The SHA-256 digest of a byte string.
pub uninterp spec fn sha256_spec(data: Seq<u8>) -> Seq<u8>;

/// Computes SHA-256 with `sha2::Sha256::digest`.
///
/// Trusted: the result is the SHA-256 digest of `data`, a function of `data`
/// alone, and it is 32 bytes long.
#[verifier::external_body]
pub(crate) fn sha256(data: &[u8]) -> (digest: Vec<u8>)
    ensures
        digest@ == sha256_spec(data@),
        digest@.len() == DIGEST_BYTES,
{
    <sha2::Sha256 as sha2::Digest>::digest(data).to_vec()
}

/// The lowercase hexadecimal digit that stands for a value below sixteen.
pub open spec fn hex_digit(nibble: int) -> char {
    if nibble < 10 {
        ('0' as u8 + nibble) as u8 as char
    } else {
        ('a' as u8 + (nibble - 10)) as u8 as char
    }
}

/// Lowercase hexadecimal rendering: two digits per byte, high half first.
pub open spec fn hex_spec(data: Seq<u8>) -> Seq<char> {
    Seq::new(
        2 * data.len(),
        |i: int|
            if i % 2 == 0 {
                hex_digit(data[i / 2] as int / 16)
            } else {
                hex_digit(data[i / 2] as int % 16)
            },
    )
}

/// Renders bytes with `hex::encode`.
///
/// Trusted: the result holds two lowercase hexadecimal digits for each byte
/// of `data`, in order, the high half of a byte first.
#[verifier::external_body]
pub(crate) fn hex_encode(data: &[u8]) -> (text: String)
    ensures
        text@ == hex_spec(data@),
{
    hex::encode(data)
}

/// The hexadecimal SHA-256 fingerprint of a byte string.
pub open spec fn fingerprint_spec(data: Seq<u8>) -> Seq<char> {
    hex_spec(sha256_spec(data))
}

/// Hashes `data` with SHA-256 and renders the digest as lowercase hex.
pub fn fingerprint(data: &[u8]) -> (text: String)
    ensures
        text@ == fingerprint_spec(data@),
        text@.len() == 2 * DIGEST_BYTES,
{
    let digest = sha256(data);
    hex_encode(digest.as_slice())
}

} // verus!

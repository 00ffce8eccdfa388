//! BLAKE3 digests as lower-case hexadecimal text.

use vstd::prelude::*;

verus! {

/// How many bytes the key of a keyed digest has.
pub const KEY_BYTES: usize = 32;

/// The BLAKE3 digest of some bytes.
pub uninterp spec fn digest_of(bytes: Seq<u8>) -> Seq<char>;

/// The BLAKE3 digest of some bytes under a key.
pub uninterp spec fn keyed_digest_of(key: Seq<u8>, bytes: Seq<u8>) -> Seq<char>;

/// `blake3::hash`, written by `Hash::to_hex` in sixty-four hexadecimal digits.
#[verifier::external_body]
pub(crate) fn digest(bytes: &[u8]) -> (hex: String)
    ensures
        hex@ == digest_of(bytes@),
        hex@.len() == 64,
{
    blake3::hash(bytes).to_hex().as_str().to_owned()
}

/// `blake3::keyed_hash`, written by `Hash::to_hex` in sixty-four hexadecimal digits. A key has
/// exactly thirty-two bytes.
#[verifier::external_body]
pub(crate) fn keyed_digest(key: &[u8], bytes: &[u8]) -> (hex: String)
    requires
        key@.len() == KEY_BYTES,
    ensures
        hex@ == keyed_digest_of(key@, bytes@),
        hex@.len() == 64,
{
    let key: &[u8; KEY_BYTES] = key.try_into().expect("a key has thirty-two bytes");
    blake3::keyed_hash(key, bytes).to_hex().as_str().to_owned()
}

} // verus!

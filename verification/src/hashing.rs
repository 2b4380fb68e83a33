//! The 256-bit BLAKE2b hash under which extrinsics are known.

use vstd::prelude::*;

verus! {

/// The unkeyed BLAKE2b digest of `data` with a 32-byte output.
pub uninterp spec fn blake2_256(data: Seq<u8>) -> Seq<u8>;

/// Calls `blake2_rfc::blake2b::blake2b` with a 32-byte output length and an
/// empty key. Claimed: the result has 32 bytes (the crate returns `nn`
/// bytes, here 32) and is the digest named by `blake2_256` on the input
/// bytes. The digest function itself is not restated.
#[verifier::external_body]
pub(crate) fn blake2_256_digest(data: &[u8]) -> (digest: [u8; 32])
    ensures
        digest@ == blake2_256(data@),
{
    let result = blake2_rfc::blake2b::blake2b(32, &[], data);
    let mut digest = [0u8; 32];
    digest.copy_from_slice(result.as_bytes());
    digest
}

} // verus!

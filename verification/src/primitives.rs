//! Basic value types shared by the network, pool and runtime modules.

use vstd::prelude::*;

verus! {

broadcast use vstd::array::group_array_axioms;

/// A 256-bit block or extrinsic hash.
pub type H256 = [u8; 32];

/// The session key of a validator (an ed25519 public key).
pub type SessionKey = [u8; 32];

/// The index under which the network layer knows a connected peer.
pub type NodeIndex = usize;

/// Compares two 32-byte values byte by byte.
pub fn bytes32_eq(a: &[u8; 32], b: &[u8; 32]) -> (equal: bool)
    ensures
        equal == (a@ == b@),
{
    let mut i: usize = 0;
    while i < 32
        invariant
            i <= 32,
            a@.len() == 32,
            b@.len() == 32,
            forall|j: int| 0 <= j < i ==> a@[j] == b@[j],
        decreases 32 - i,
    {
        if a[i] != b[i] {
            return false;
        }
        i = i + 1;
    }
    assert(a@ =~= b@);
    true
}

} // verus!

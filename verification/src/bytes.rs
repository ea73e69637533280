//! Comparison of the fixed-width byte identities the bridge works with:
//! 20-byte source-chain addresses, 32-byte account keys and transaction
//! hashes.

use vstd::prelude::*;

verus! {

/// Byte-for-byte equality of two fixed-width identities.
pub fn bytes_eq<const N: usize>(a: &[u8; N], b: &[u8; N]) -> (r: bool)
    ensures
        r == (a@ == b@),
{
    let mut i: usize = 0;
    while i < N
        invariant
            0 <= i <= N,
            forall|j: int| 0 <= j < i ==> a@[j] == b@[j],
        decreases N - i,
    {
        if a[i] != b[i] {
            assert(a@[i as int] != b@[i as int]);
            return false;
        }
        i = i + 1;
    }
    assert(a@ =~= b@);
    true
}

} // verus!

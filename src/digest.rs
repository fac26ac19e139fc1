//! 32-byte digests and the byte-level comparisons the registry needs.

use vstd::prelude::*;

verus! {

/// A 32-byte digest, as produced by SHA-256.
pub type Digest = [u8; 32];

/// Whether every byte of the digest is zero.
pub open spec fn is_zero_digest(d: Digest) -> bool {
    forall|i: int| 0 <= i < 32 ==> #[trigger] d[i] == 0
}

/// Tests whether the hash is the all-zero value, which no commitment may use
/// as its key.
pub fn is_zero_hash(hash: &Digest) -> (r: bool)
    ensures
        r == is_zero_digest(*hash),
{
    let mut i: usize = 0;
    while i < 32
        invariant
            i <= 32,
            forall|j: int| 0 <= j < i ==> #[trigger] hash[j] == 0,
        decreases 32 - i,
    {
        if hash[i] != 0 {
            return false;
        }
        i = i + 1;
    }
    true
}

/// Tests whether two digests hold the same bytes.
pub fn digests_equal(a: &Digest, b: &Digest) -> (r: bool)
    ensures
        r == (*a == *b),
{
    let mut i: usize = 0;
    while i < 32
        invariant
            i <= 32,
            forall|j: int| 0 <= j < i ==> #[trigger] a[j] == b[j],
        decreases 32 - i,
    {
        if a[i] != b[i] {
            return false;
        }
        i = i + 1;
    }
    assert(*a =~= *b);
    true
}

} // verus!

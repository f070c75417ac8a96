//! The 32-byte block identifier.

use vstd::prelude::*;

verus! {

/// A 32-byte opaque block identifier.
#[derive(Clone, Copy, Debug)]
pub struct BlockHash {
    pub bytes: [u8; 32],
}

impl View for BlockHash {
    type V = Seq<u8>;

    open spec fn view(&self) -> Seq<u8> {
        self.bytes@
    }
}

/// The view of the all-zero hash.
pub open spec fn zero_hash_spec() -> Seq<u8> {
    Seq::new(32, |i: int| 0u8)
}

impl BlockHash {
    /// Wraps 32 raw bytes as a hash.
    pub fn from_bytes(bytes: [u8; 32]) -> (h: BlockHash)
        ensures
            h@ == bytes@,
    {
        BlockHash { bytes }
    }

    /// The hash whose bytes are all zero.
    pub fn zero() -> (h: BlockHash)
        ensures
            h@ == zero_hash_spec(),
    {
        let bytes: [u8; 32] = [0u8; 32];
        proof {
            assert(bytes@ =~= zero_hash_spec());
        }
        BlockHash { bytes }
    }

    /// The raw bytes of the hash.
    pub fn as_bytes(&self) -> (b: &[u8; 32])
        ensures
            b@ == self@,
    {
        &self.bytes
    }

    /// Byte-for-byte equality of two hashes.
    pub fn equals(&self, other: &BlockHash) -> (r: bool)
        ensures
            r == (self@ == other@),
    {
        let mut i: usize = 0;
        while i < 32
            invariant
                i <= 32,
                forall|j: int| 0 <= j < i ==> self@[j] == other@[j],
            decreases 32 - i,
        {
            if self.bytes[i] != other.bytes[i] {
                return false;
            }
            i += 1;
        }
        proof {
            assert(self@ =~= other@);
        }
        true
    }
}

} // verus!

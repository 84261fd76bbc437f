//! The 256-bit block identifier used as the registry's key.

use vstd::prelude::*;

verus! {

/// A 256-bit block identifier.
///
/// Any 256-bit value is a syntactically valid key, whether or not it names a
/// real chain block.  Mathematically a hash is just its 32 bytes, exposed as
/// the view `Seq<u8>`.
#[derive(Clone, Copy, PartialEq, Eq, Hash, Debug)]
pub struct BlockHash {
    pub bytes: [u8; 32],
}

impl View for BlockHash {
    type V = Seq<u8>;

    open spec fn view(&self) -> Seq<u8> {
        self.bytes@
    }
}

/// Declaration of `primitive_types::H256`, the 256-bit hash type the
/// surrounding system produces; its single field is its 32 bytes.
#[verifier::external_type_specification]
pub struct ExH256(primitive_types::H256);

impl BlockHash {
    /// Wraps 32 raw bytes as a block hash.
    pub fn from_bytes(bytes: [u8; 32]) -> (h: BlockHash)
        ensures
            h@ == bytes@,
    {
        BlockHash { bytes }
    }

    /// Converts from the 256-bit hash type external collaborators produce.
    pub fn from_h256(h: &primitive_types::H256) -> (r: BlockHash)
        ensures
            r@ == h.0@,
    {
        BlockHash { bytes: h.0 }
    }

    /// Converts back into the external 256-bit hash type.
    pub fn to_h256(&self) -> (r: primitive_types::H256)
        ensures
            r.0@ == self@,
    {
        primitive_types::H256(self.bytes)
    }
}

} // verus!

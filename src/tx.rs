//! The parts of a transaction request that the tip check reads.
use vstd::prelude::*;

use crate::uint::Uint256;

verus! {

/// A 20-byte account address.
#[derive(Clone, Copy, Debug, Eq)]
pub struct Address {
    pub bytes: [u8; 20],
}

impl PartialEq for Address {
    fn eq(&self, other: &Address) -> (r: bool)
        ensures
            r == (self.bytes@ == other.bytes@),
    {
        let mut i: usize = 0;
        while i < 20
            invariant
                i <= 20,
                forall|j: int| 0 <= j < i ==> self.bytes@[j] == other.bytes@[j],
            decreases 20 - i,
        {
            if self.bytes[i] != other.bytes[i] {
                return false;
            }
            i = i + 1;
        }
        assert(self.bytes@ =~= other.bytes@);
        true
    }
}

impl vstd::std_specs::cmp::PartialEqSpecImpl for Address {
    open spec fn obeys_eq_spec() -> bool {
        true
    }

    open spec fn eq_spec(&self, other: &Address) -> bool {
        self.bytes@ == other.bytes@
    }
}

/// A transaction request: where it goes, which blobs it carries, and what it pays.
#[derive(Clone, Debug, PartialEq, Eq)]
pub struct TransactionRequest {
    /// The destination, if one is set.
    pub to: Option<Address>,
    /// The versioned hashes of the blobs the transaction carries, in order.
    pub blob_versioned_hashes: Option<Vec<[u8; 32]>>,
    /// The value sent with the transaction, in wei.
    pub value: Option<Uint256>,
}

} // verus!

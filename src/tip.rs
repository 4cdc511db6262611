//! The check a blob-carrying transaction must pass before its tip is read
//! off, and the tip each blob pays.
use vstd::prelude::*;

use crate::tx::{Address, TransactionRequest};
use crate::uint::{div_by_count, Uint256};

verus! {

/// Why a transaction request does not describe a tip to the middleware.
#[derive(Clone, Copy, Debug, PartialEq, Eq, Structural)]
pub enum TipError {
    /// The destination is set, but to another address.
    DestinationMismatch,
    /// No destination is set.
    MissingDestination,
    /// The request carries no list of blob hashes.
    MissingBlobData,
    /// The request carries blob hashes but no value.
    MissingValue,
}

/// The request is addressed to `expected`.
pub open spec fn sent_to(tx: TransactionRequest, expected: Address) -> bool {
    tx.to matches Some(a) && a.bytes@ == expected.bytes@
}

/// The request would have its tip divided among zero blobs.
pub open spec fn divides_by_zero(tx: TransactionRequest, expected: Address) -> bool {
    &&& sent_to(tx, expected)
    &&& tx.blob_versioned_hashes matches Some(h) && h@.len() == 0
    &&& tx.value is Some
}

/// Checks that `tx` is addressed to the middleware at `expected` and returns
/// the number of blobs it carries together with the tip per blob: its value
/// divided by that number, rounded down. A request that passes every check
/// but carries an empty list of blob hashes has no tip per blob, and is not
/// admitted.
pub fn blob_tip_helper(tx: &TransactionRequest, expected: &Address) -> (r: Result<
    (usize, Uint256),
    TipError,
>)
    requires
        !divides_by_zero(*tx, *expected),
    ensures
        tx.to is None <==> r == Err::<(usize, Uint256), TipError>(TipError::MissingDestination),
        (tx.to matches Some(a) && a.bytes@ != expected.bytes@) <==> r == Err::<
            (usize, Uint256),
            TipError,
        >(TipError::DestinationMismatch),
        (sent_to(*tx, *expected) && tx.blob_versioned_hashes is None) <==> r == Err::<
            (usize, Uint256),
            TipError,
        >(TipError::MissingBlobData),
        (sent_to(*tx, *expected) && tx.blob_versioned_hashes is Some && tx.value is None) <==> r
            == Err::<(usize, Uint256), TipError>(TipError::MissingValue),
        r is Ok <==> (sent_to(*tx, *expected) && tx.blob_versioned_hashes is Some
            && tx.value is Some),
        r matches Ok((n, tip)) ==> {
            &&& n == tx.blob_versioned_hashes.unwrap()@.len()
            &&& tip.value() == tx.value.unwrap().value() / (n as nat)
        },
{
    match &tx.to {
        Some(to) => {
            if *to != *expected {
                return Err(TipError::DestinationMismatch);
            }
        },
        None => {
            return Err(TipError::MissingDestination);
        },
    }
    match &tx.blob_versioned_hashes {
        Some(hashes) => {
            let blob_count = hashes.len();
            match &tx.value {
                Some(value) => Ok((blob_count, div_by_count(*value, blob_count))),
                None => Err(TipError::MissingValue),
            }
        },
        None => Err(TipError::MissingBlobData),
    }
}

} // verus!

//! Validation of blob-carrying transactions that pay a per-blob tip to a
//! block builder through a middleware contract.
pub mod tip;
pub mod tx;
pub mod uint;

pub use tip::{blob_tip_helper, TipError};
pub use tx::{Address, TransactionRequest};
pub use uint::Uint256;

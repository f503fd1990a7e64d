//! The values of the chain client that the classifier handles.

use ethers::types::{TransactionReceipt, H256};
use vstd::prelude::*;

verus! {

/// `ethers::types::TransactionReceipt`, held as an opaque value.
#[verifier::external_type_specification]
#[verifier::external_body]
pub struct ExTransactionReceipt(TransactionReceipt);

/// `ethers::types::H256`, held as an opaque value.
#[verifier::external_type_specification]
#[verifier::external_body]
pub struct ExH256(H256);

/// `TransactionReceipt::clone` is the derived one: the clone equals the receipt.
pub assume_specification[ <TransactionReceipt as Clone>::clone ](
    receipt: &TransactionReceipt,
) -> (copy: TransactionReceipt)
    ensures
        copy == *receipt,
;

/// `H256::clone` copies the 32 bytes: the clone equals the hash.
pub assume_specification[ <H256 as Clone>::clone ](hash: &H256) -> (copy: H256)
    ensures
        copy == *hash,
;

/// The execution status that a receipt records: its `status` field, as a plain integer.
pub uninterp spec fn receipt_status(receipt: TransactionReceipt) -> Option<u64>;

/// Reads the `status` field of a receipt. The field is an `Option<U64>`, and
/// `U64::low_u64` gives the single word of a `U64`, so nothing is lost.
#[verifier::external_body]
pub(crate) fn status_of(receipt: &TransactionReceipt) -> (status: Option<u64>)
    ensures
        status == receipt_status(*receipt),
{
    receipt.status.map(|code| code.low_u64())
}

} // verus!

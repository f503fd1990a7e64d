//! What holds of the classification, whatever the transaction.
//!
//! Each law is stated over [`outcome`], the value that [`crate::handle_tx`]
//! returns.

use crate::chain::receipt_status;
use crate::types::{TxErrorsView, TxStatusView};
use crate::{mine_failure, outcome, send_failure, SentTx, FAILURE_STATUS};
use ethers::types::{TransactionReceipt, H256};
use vstd::prelude::*;

verus! {

/// Whether two statuses are of the same kind: both successful, or both failed
/// in the same of the three ways.
pub open spec fn same_variant(first: TxStatusView, second: TxStatusView) -> bool {
    match (first, second) {
        (TxStatusView::Successful(_), TxStatusView::Successful(_)) => true,
        (TxStatusView::Failed(a), TxStatusView::Failed(b)) => match (a, b) {
            (TxErrorsView::NoReceipt(_), TxErrorsView::NoReceipt(_)) => true,
            (TxErrorsView::Reverted(_), TxErrorsView::Reverted(_)) => true,
            (TxErrorsView::Failed(_), TxErrorsView::Failed(_)) => true,
            _ => false,
        },
        _ => false,
    }
}

/// A transaction that could not be sent has failed, with a description made
/// of the client's account of the failure alone: there is no wait for mining
/// whose result could enter into it.
pub proof fn send_error_fails(detail: String)
    ensures
        outcome(Err(detail)) == TxStatusView::Failed(
            TxErrorsView::Failed(send_failure(detail@)),
        ),
{
}

/// A sent transaction for which the wait for mining failed has failed, with a
/// description made of the client's account of that failure.
pub proof fn wait_error_fails(hash: H256, detail: String)
    ensures
        outcome(Ok(SentTx { hash, mined: Err(detail) })) == TxStatusView::Failed(
            TxErrorsView::Failed(mine_failure(detail@)),
        ),
{
}

/// A mined transaction whose receipt records the failure status has reverted,
/// and the status carries that very receipt.
pub proof fn failure_status_is_reverted(hash: H256, receipt: TransactionReceipt)
    requires
        receipt_status(receipt) == Some(FAILURE_STATUS),
    ensures
        outcome(Ok(SentTx { hash, mined: Ok(Some(receipt)) })) == TxStatusView::Failed(
            TxErrorsView::Reverted(receipt),
        ),
{
}

/// A mined transaction whose receipt records any other status, or none, was
/// successful, and the status carries that very receipt.
pub proof fn other_status_is_successful(hash: H256, receipt: TransactionReceipt)
    requires
        receipt_status(receipt) != Some(FAILURE_STATUS),
    ensures
        outcome(Ok(SentTx { hash, mined: Ok(Some(receipt)) })) == TxStatusView::Successful(
            receipt,
        ),
{
}

/// A transaction that was mined without a receipt has failed, and the status
/// carries the hash under which the transaction was pending.
pub proof fn missing_receipt_keeps_hash(hash: H256)
    ensures
        outcome(Ok(SentTx { hash, mined: Ok(None) })) == TxStatusView::Failed(
            TxErrorsView::NoReceipt(hash),
        ),
{
}

/// Two handles on one mined transaction are classified alike: where both
/// pend under the same hash and both waits gave a receipt that records the
/// same execution status, the two statuses are of the same kind.
pub proof fn same_transaction_same_variant(first: SentTx, second: SentTx)
    requires
        first.hash == second.hash,
        first.mined matches Ok(Some(a)) && second.mined matches Ok(Some(b)) && receipt_status(a)
            == receipt_status(b),
    ensures
        same_variant(outcome(Ok(first)), outcome(Ok(second))),
{
}

} // verus!

//! Classification of the outcome of a submitted blockchain transaction.
//!
//! A caller sends a transaction through its chain client and waits for it to
//! be mined. [`handle_tx`] takes what came of that, as plain values, and says
//! how the transaction ended: executed, reverted, mined without a receipt, or
//! failed while it was sent or waited for.

pub mod chain;
pub mod laws;
pub mod types;

use crate::chain::{receipt_status, status_of};
use crate::types::{TxErrors, TxErrorsView, TxStatus, TxStatusView};
use ethers::types::{TransactionReceipt, H256};
use vstd::prelude::*;
use vstd::string::StringExecFns;

verus! {

/// The execution status with which a receipt records a reverted transaction.
pub const FAILURE_STATUS: u64 = 0;

/// A transaction that the chain client accepted.
pub struct SentTx {
    /// The hash under which the transaction is pending.
    pub hash: H256,
    /// What waiting for the transaction to be mined gave: the receipt, if
    /// there was one, or the client's account of why the wait failed.
    pub mined: Result<Option<TransactionReceipt>, String>,
}

/// The description of a transaction that could not be sent, for the client's
/// account `detail` of the failure.
pub open spec fn send_failure(detail: Seq<char>) -> Seq<char> {
    "Failed to send transaction: "@ + detail
}

/// The description of a transaction for which the wait for mining failed, for
/// the client's account `detail` of the failure.
pub open spec fn mine_failure(detail: Seq<char>) -> Seq<char> {
    "Failed to mine transaction: "@ + detail
}

/// The status of a mined transaction with the given receipt, whose recorded
/// execution status is `status`.
pub open spec fn receipt_outcome(status: Option<u64>, receipt: TransactionReceipt) -> TxStatusView {
    if status == Some(FAILURE_STATUS) {
        TxStatusView::Failed(TxErrorsView::Reverted(receipt))
    } else {
        TxStatusView::Successful(receipt)
    }
}

/// The status of a transaction that was sent under `hash`, given what the wait
/// for mining gave.
pub open spec fn mined_outcome(
    hash: H256,
    mined: Result<Option<TransactionReceipt>, String>,
) -> TxStatusView {
    match mined {
        Err(detail) => TxStatusView::Failed(TxErrorsView::Failed(mine_failure(detail@))),
        Ok(None) => TxStatusView::Failed(TxErrorsView::NoReceipt(hash)),
        Ok(Some(receipt)) => receipt_outcome(receipt_status(receipt), receipt),
    }
}

/// The status of a transaction, given what the attempt to send it gave.
pub open spec fn outcome(tx: Result<SentTx, String>) -> TxStatusView {
    match tx {
        Err(detail) => TxStatusView::Failed(TxErrorsView::Failed(send_failure(detail@))),
        Ok(sent) => mined_outcome(sent.hash, sent.mined),
    }
}

/// Classifies a mined transaction by the execution status that its receipt
/// records: reverted if the status is [`FAILURE_STATUS`], successful if it is
/// anything else or absent. The receipt is handed on unchanged.
pub fn classify_receipt(status: Option<u64>, receipt: TransactionReceipt) -> (result: TxStatus)
    ensures
        result@ == receipt_outcome(status, receipt),
{
    let reverted = match status {
        Some(code) => code == FAILURE_STATUS,
        None => false,
    };
    if reverted {
        TxStatus::Failed(TxErrors::Reverted(receipt))
    } else {
        TxStatus::Successful(receipt)
    }
}

/// Handles the transaction and returns its status.
///
/// `tx` is what the attempt to send the transaction gave: the client's account
/// of the failure, or the sent transaction with what the wait for mining gave.
pub fn handle_tx(tx: Result<SentTx, String>) -> (result: TxStatus)
    ensures
        result@ == outcome(tx),
{
    let sent = match tx {
        Ok(sent) => sent,
        Err(detail) => {
            let description = String::from_str("Failed to send transaction: ").concat(
                detail.as_str(),
            );
            return TxStatus::Failed(TxErrors::Failed(description));
        },
    };
    let hash = sent.hash;
    let receipt = match sent.mined {
        Ok(receipt) => receipt,
        Err(detail) => {
            let description = String::from_str("Failed to mine transaction: ").concat(
                detail.as_str(),
            );
            return TxStatus::Failed(TxErrors::Failed(description));
        },
    };
    match receipt {
        Some(receipt) => {
            let status = status_of(&receipt);
            classify_receipt(status, receipt)
        },
        None => TxStatus::Failed(TxErrors::NoReceipt(hash)),
    }
}

} // verus!

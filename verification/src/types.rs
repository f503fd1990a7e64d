//! The status of a handled transaction and the ways in which it can fail.

use ethers::types::{TransactionReceipt, H256};
use vstd::prelude::*;

verus! {

/// How a handled transaction ended.
#[derive(Debug)]
pub enum TxStatus {
    /// The transaction was mined and executed.
    Successful(TransactionReceipt),
    /// The transaction failed in one way or another.
    Failed(TxErrors),
}

/// The three ways in which a transaction can fail.
#[derive(Debug)]
pub enum TxErrors {
    /// Mining was reported complete, but no receipt was to be had.
    NoReceipt(H256),
    /// The transaction was mined and its execution reverted.
    Reverted(TransactionReceipt),
    /// The transaction could not be sent, or waiting for it to be mined failed.
    Failed(String),
}

/// The mathematical value of a [`TxStatus`].
pub enum TxStatusView {
    Successful(TransactionReceipt),
    Failed(TxErrorsView),
}

/// The mathematical value of a [`TxErrors`]: the description is a sequence of characters.
pub enum TxErrorsView {
    NoReceipt(H256),
    Reverted(TransactionReceipt),
    Failed(Seq<char>),
}

impl View for TxErrors {
    type V = TxErrorsView;

    open spec fn view(&self) -> TxErrorsView {
        match *self {
            TxErrors::NoReceipt(hash) => TxErrorsView::NoReceipt(hash),
            TxErrors::Reverted(receipt) => TxErrorsView::Reverted(receipt),
            TxErrors::Failed(description) => TxErrorsView::Failed(description@),
        }
    }
}

impl View for TxStatus {
    type V = TxStatusView;

    open spec fn view(&self) -> TxStatusView {
        match *self {
            TxStatus::Successful(receipt) => TxStatusView::Successful(receipt),
            TxStatus::Failed(error) => TxStatusView::Failed(error@),
        }
    }
}

impl Clone for TxErrors {
    fn clone(&self) -> (copy: TxErrors)
        ensures
            copy@ == self@,
    {
        match self {
            TxErrors::NoReceipt(hash) => TxErrors::NoReceipt(hash.clone()),
            TxErrors::Reverted(receipt) => TxErrors::Reverted(receipt.clone()),
            TxErrors::Failed(description) => TxErrors::Failed(description.clone()),
        }
    }
}

impl Clone for TxStatus {
    fn clone(&self) -> (copy: TxStatus)
        ensures
            copy@ == self@,
    {
        match self {
            TxStatus::Successful(receipt) => TxStatus::Successful(receipt.clone()),
            TxStatus::Failed(error) => TxStatus::Failed(error.clone()),
        }
    }
}

} // verus!

//! From an execution result to the one write that is committed: the result
//! must hold exactly one receipt, a valid one, with exactly one state change,
//! a write.

use vstd::prelude::*;
use vstd::string::*;
use crate::error::{ErrorKind, PCError};

verus! {

/// One change to the state.
#[derive(Clone, Debug, PartialEq, Eq)]
pub enum StateChange {
    /// Writes `value` under `key`.
    Write { key: String, value: Vec<u8> },
    /// Removes what is stored under `key`.
    Delete { key: String },
}

/// The outcome of one transaction.
#[derive(Clone, Debug, PartialEq, Eq)]
pub enum TransactionResult {
    /// The handler accepted the transaction, with these changes in order.
    Valid { state_changes: Vec<StateChange> },
    /// The handler rejected the transaction, in these words.
    Invalid { error_message: String },
}

/// The receipt of one transaction.
#[derive(Clone, Debug, PartialEq, Eq)]
pub struct TransactionReceipt {
    /// What became of the transaction.
    pub transaction_result: TransactionResult,
}

/// The result of executing a batch: one receipt per transaction, in order.
#[derive(Clone, Debug, PartialEq, Eq)]
pub struct BatchExecutionResult {
    /// The receipts.
    pub receipts: Vec<TransactionReceipt>,
}

/// The one write to commit and the root to commit it against.
#[derive(Clone, Debug, PartialEq, Eq)]
pub struct CommitRequest {
    /// The root that the write is applied to.
    pub state_root: String,
    /// The key that is written.
    pub key: String,
    /// The value that is written.
    pub value: Vec<u8>,
}

/// The cause given where the result holds no receipt.
pub open spec fn no_receipt_text() -> Seq<char> {
    "Unable to find the result"@
}

/// The cause given where a valid receipt holds no state change.
pub open spec fn no_change_text() -> Seq<char> {
    "Unable to find the receipt for the transaction"@
}

/// The cause given where the state change is a removal.
pub open spec fn delete_text() -> Seq<char> {
    "Found a delete operation"@
}

/// The cause given where the result holds more than one receipt.
pub open spec fn many_receipts_text() -> Seq<char> {
    "Found more than one receipt"@
}

/// The cause given where a valid receipt holds more than one state change.
pub open spec fn many_changes_text() -> Seq<char> {
    "Found more than one state change"@
}

/// The write that a list of receipts yields, as key and value, or the kind
/// and cause of the failure. There must be exactly one receipt; it must be
/// valid and hold exactly one state change, and that change must be a write.
pub open spec fn single_change(receipts: Seq<TransactionReceipt>) -> Result<
    (Seq<char>, Seq<u8>),
    (ErrorKind, Seq<char>),
> {
    if receipts.len() == 0 {
        Err((ErrorKind::NoStateChange, no_receipt_text()))
    } else if receipts.len() > 1 {
        Err((ErrorKind::UnsupportedOperation, many_receipts_text()))
    } else {
        match receipts[0].transaction_result {
            TransactionResult::Invalid { error_message } => Err(
                (ErrorKind::TransactionRejected, error_message@),
            ),
            TransactionResult::Valid { state_changes } => {
                if state_changes@.len() == 0 {
                    Err((ErrorKind::NoStateChange, no_change_text()))
                } else if state_changes@.len() > 1 {
                    Err((ErrorKind::UnsupportedOperation, many_changes_text()))
                } else {
                    match state_changes@[0] {
                        StateChange::Write { key, value } => Ok((key@, value@)),
                        StateChange::Delete { key } => Err(
                            (ErrorKind::UnsupportedOperation, delete_text()),
                        ),
                    }
                }
            },
        }
    }
}

/// Law: a write is yielded only by a result of exactly one receipt that is
/// valid and holds exactly one state change, a write: the write yielded.
pub proof fn lemma_single_change_shape(receipts: Seq<TransactionReceipt>)
    requires
        single_change(receipts) is Ok,
    ensures
        receipts.len() == 1,
        receipts[0].transaction_result is Valid,
        receipts[0].transaction_result->state_changes@.len() == 1,
        receipts[0].transaction_result->state_changes@[0] is Write,
        single_change(receipts)->Ok_0.0
            == receipts[0].transaction_result->state_changes@[0]->Write_key@,
        single_change(receipts)->Ok_0.1
            == receipts[0].transaction_result->state_changes@[0]->Write_value@,
{
}

/// Extracts the one write of an execution result and pairs it with the root
/// it is to be applied to.
///
/// A rejected transaction fails with the handler's words as they are. A
/// result without a receipt, or a valid receipt without a change, fails as
/// no state change. More than one receipt, more than one change, and a
/// removal fail as an unsupported operation.
pub fn commit_state(cur_root: &str, result: BatchExecutionResult) -> (r: Result<
    CommitRequest,
    PCError,
>)
    ensures
        match single_change(result.receipts@) {
            Ok((key, value)) => r matches Ok(request) && request.state_root@ == cur_root@
                && request.key@ == key && request.value@ == value,
            Err((kind, cause)) => r matches Err(e) && e.kind == kind && e.message@ == cause,
        },
{
    let mut receipts: Vec<TransactionReceipt> = result.receipts;
    if receipts.len() > 1 {
        return Err(
            PCError::from_text(ErrorKind::UnsupportedOperation, "Found more than one receipt"),
        );
    }
    let txn_result: TransactionResult = match receipts.pop() {
        Some(receipt) => receipt.transaction_result,
        None => {
            return Err(
                PCError::from_text(ErrorKind::NoStateChange, "Unable to find the result"),
            );
        },
    };
    let mut state_change_vector: Vec<StateChange> = match txn_result {
        TransactionResult::Valid { state_changes } => state_changes,
        TransactionResult::Invalid { error_message } => {
            return Err(PCError::new(ErrorKind::TransactionRejected, error_message));
        },
    };
    if state_change_vector.len() > 1 {
        return Err(
            PCError::from_text(
                ErrorKind::UnsupportedOperation,
                "Found more than one state change",
            ),
        );
    }
    let state_change: StateChange = match state_change_vector.pop() {
        Some(state_change) => state_change,
        None => {
            return Err(
                PCError::from_text(
                    ErrorKind::NoStateChange,
                    "Unable to find the receipt for the transaction",
                ),
            );
        },
    };
    match state_change {
        StateChange::Write { key, value } => Ok(
            CommitRequest { state_root: String::from_str(cur_root), key, value },
        ),
        StateChange::Delete { key } => Err(
            PCError::from_text(ErrorKind::UnsupportedOperation, "Found a delete operation"),
        ),
    }
}

/// Judges what the state store made of a commit: the new root as it is, or a
/// state store error with the store's words.
pub fn committed(outcome: Result<String, String>) -> (r: Result<String, PCError>)
    ensures
        match outcome {
            Ok(root) => r == Ok::<String, PCError>(root),
            Err(cause) => r matches Err(e) && e.kind == ErrorKind::StateStoreError && e.message@
                == cause@,
        },
{
    match outcome {
        Ok(root) => Ok(root),
        Err(cause) => Err(PCError::new(ErrorKind::StateStoreError, cause)),
    }
}

} // verus!

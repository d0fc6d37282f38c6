use produce_consume::action::{Action, Command};
use produce_consume::address::{address_key, compute_address};
use produce_consume::batcher::{Batch, Batcher, HashMethod, Transaction};
use produce_consume::error::{ErrorKind, PCError, ScheduleStage};
use produce_consume::handler::{
    apply, item_key, read_stored, settle_command, Rejection, PRODUCE_CONSUME, VERSION,
};
use produce_consume::scheduler::{schedule, ScheduleStep, StageOutcome};
use produce_consume::state_handler::{
    commit_state, committed, BatchExecutionResult, StateChange, TransactionReceipt,
    TransactionResult,
};

fn payload(command: Command, identifier: &str, quantity: i32) -> Vec<u8> {
    let mut action = Action::new();
    action.set_command(command);
    action.set_identifier(identifier.to_string());
    action.set_quantity(quantity);
    action.write_to_bytes().unwrap()
}

fn transaction(tag: u8) -> Transaction {
    Transaction {
        header: vec![tag, 1, 2],
        header_signature: format!("signature-{}", tag),
        payload: vec![tag],
    }
}

fn valid(state_changes: Vec<StateChange>) -> TransactionReceipt {
    TransactionReceipt { transaction_result: TransactionResult::Valid { state_changes } }
}

fn invalid(message: &str) -> TransactionReceipt {
    TransactionReceipt {
        transaction_result: TransactionResult::Invalid { error_message: message.to_string() },
    }
}

fn write(key: &str, value: &[u8]) -> StateChange {
    StateChange::Write { key: key.to_string(), value: value.to_vec() }
}

fn all_stages() -> Vec<ScheduleStage> {
    vec![
        ScheduleStage::CreateScheduler,
        ScheduleStage::RegisterCallback,
        ScheduleStage::AddBatch,
        ScheduleStage::Finalize,
        ScheduleStage::TakeTasks,
        ScheduleStage::NewNotifier,
        ScheduleStage::Execute,
        ScheduleStage::AwaitResult,
    ]
}

#[test]
fn family_constants() {
    assert_eq!(PRODUCE_CONSUME, "produce-consume");
    assert_eq!(VERSION, "1.0");
}

#[test]
fn transaction_request_carries_what_was_given() {
    let batcher = Batcher::new(vec![2, 3, 5, 7]);
    assert_eq!(batcher.public_key(), vec![2, 3, 5, 7]);
    let request = batcher.get_txn(
        &[9, 8, 7],
        vec![vec![1, 1], vec![2]],
        vec![vec![3, 3, 3]],
        vec![0xaa, 0xbb],
    );
    assert_eq!(request.batcher_public_key, vec![2, 3, 5, 7]);
    assert_eq!(request.family_name, "produce-consume");
    assert_eq!(request.family_version, "1.0");
    assert_eq!(request.inputs, vec![vec![1, 1], vec![2]]);
    assert_eq!(request.outputs, vec![vec![3, 3, 3]]);
    assert_eq!(request.nonce, vec![0xaa, 0xbb]);
    assert_eq!(request.payload_hash_method, HashMethod::Sha512);
    assert_eq!(request.payload, vec![9, 8, 7]);
}

#[test]
fn signed_transaction_passes_through() {
    assert_eq!(Batcher::signed_txn(Ok(transaction(4))), Ok(transaction(4)));
}

#[test]
fn failed_transaction_is_a_signing_error() {
    let error = Batcher::signed_txn(Err("no key".to_string())).unwrap_err();
    assert_eq!(error.kind, ErrorKind::SigningError);
    assert_eq!(error.message, "Txn Builder: no key");
}

#[test]
fn batch_request_holds_the_one_transaction() {
    let batcher = Batcher::new(vec![1]);
    let request = batcher.get_batch(transaction(6));
    assert_eq!(request.transactions, vec![transaction(6)]);
}

#[test]
fn signed_batch_passes_through() {
    let batch = Batch {
        header: vec![1],
        header_signature: "s".to_string(),
        transactions: vec![transaction(1)],
    };
    assert_eq!(Batcher::signed_batch(Ok(batch.clone())), Ok(batch));
}

#[test]
fn failed_batch_is_a_signing_error() {
    let error = Batcher::signed_batch(Err("bad signer".to_string())).unwrap_err();
    assert_eq!(error.kind, ErrorKind::SigningError);
    assert_eq!(error.message, "BatchBuilder: bad signer");
}

#[test]
fn stages_follow_in_order() {
    let stages = all_stages();
    assert_eq!(ScheduleStage::first(), stages[0]);
    for i in 0..7 {
        assert_eq!(stages[i].next(), Some(stages[i + 1]));
        assert_eq!(
            schedule(stages[i], StageOutcome::Completed),
            ScheduleStep::Perform(stages[i + 1])
        );
    }
    assert_eq!(ScheduleStage::AwaitResult.next(), None);
}

#[test]
fn failure_at_any_stage_carries_the_stage_and_the_cause() {
    for stage in all_stages() {
        let step = schedule(stage, StageOutcome::Failed("engine down".to_string()));
        assert_eq!(
            step,
            ScheduleStep::Abandoned(PCError {
                kind: ErrorKind::SchedulingError(stage),
                message: "engine down".to_string(),
            })
        );
    }
}

#[test]
fn received_result_ends_the_execution() {
    let result = BatchExecutionResult { receipts: vec![valid(vec![write("k", &[1])])] };
    assert_eq!(
        schedule(ScheduleStage::AwaitResult, StageOutcome::Received(Some(result.clone()))),
        ScheduleStep::Finished(result)
    );
}

#[test]
fn empty_result_is_an_error() {
    let expected = ScheduleStep::Abandoned(PCError {
        kind: ErrorKind::SchedulingError(ScheduleStage::AwaitResult),
        message: "Unexpected error, no result found".to_string(),
    });
    assert_eq!(schedule(ScheduleStage::AwaitResult, StageOutcome::Received(None)), expected);
    assert_eq!(schedule(ScheduleStage::AwaitResult, StageOutcome::Completed), expected);
}

#[test]
fn result_before_the_wait_is_an_error_of_that_stage() {
    let result = BatchExecutionResult { receipts: vec![valid(vec![write("k", &[1])])] };
    for stage in all_stages() {
        if stage == ScheduleStage::AwaitResult {
            continue;
        }
        let expected = ScheduleStep::Abandoned(PCError {
            kind: ErrorKind::SchedulingError(stage),
            message: "Unexpected result before the wait for it".to_string(),
        });
        assert_eq!(schedule(stage, StageOutcome::Received(Some(result.clone()))), expected);
        assert_eq!(schedule(stage, StageOutcome::Received(None)), expected);
    }
}

#[test]
fn stage_labels() {
    assert_eq!(ScheduleStage::CreateScheduler.label(), "scheduler construction");
    assert_eq!(ScheduleStage::RegisterCallback.label(), "callback registration");
    assert_eq!(ScheduleStage::AddBatch.label(), "batch addition");
    assert_eq!(ScheduleStage::Finalize.label(), "finalize");
    assert_eq!(ScheduleStage::TakeTasks.label(), "task-stream retrieval");
    assert_eq!(ScheduleStage::NewNotifier.label(), "notifier creation");
    assert_eq!(ScheduleStage::Execute.label(), "executor dispatch");
    assert_eq!(ScheduleStage::AwaitResult.label(), "result wait");
}

#[test]
fn diagnostics_name_the_kind_and_the_cause() {
    let error = PCError::from_text(ErrorKind::FormatError, "bad line");
    assert_eq!(error.describe(), "FormatError: bad line");
    let error = PCError::new(
        ErrorKind::SchedulingError(ScheduleStage::Finalize),
        "already finalized".to_string(),
    );
    assert_eq!(error.describe(), "SchedulingError at finalize: already finalized");
    assert_eq!(ErrorKind::CodecError.label(), "CodecError");
    assert_eq!(ErrorKind::SigningError.label(), "SigningError");
    assert_eq!(ErrorKind::TransactionRejected.label(), "TransactionRejected");
    assert_eq!(ErrorKind::NoStateChange.label(), "NoStateChange");
    assert_eq!(ErrorKind::UnsupportedOperation.label(), "UnsupportedOperation");
    assert_eq!(ErrorKind::StateStoreError.label(), "StateStoreError");
}

#[test]
fn single_write_is_extracted() {
    let result = BatchExecutionResult { receipts: vec![valid(vec![write("abc", &[5])])] };
    let request = commit_state("root-1", result).unwrap();
    assert_eq!(request.state_root, "root-1");
    assert_eq!(request.key, "abc");
    assert_eq!(request.value, vec![5]);
}

#[test]
fn more_than_one_receipt_is_refused() {
    let results = vec![
        vec![invalid("first"), valid(vec![write("k2", &[2, 2])])],
        vec![valid(vec![write("k", &[1])]), valid(vec![write("k", &[1])])],
        vec![valid(vec![write("k", &[1])]), invalid("Not enough items")],
        vec![invalid("a"), invalid("b"), invalid("c")],
        vec![valid(vec![]), valid(vec![])],
    ];
    for receipts in results {
        let error = commit_state("r", BatchExecutionResult { receipts }).unwrap_err();
        assert_eq!(error.kind, ErrorKind::UnsupportedOperation);
        assert_eq!(error.message, "Found more than one receipt");
    }
}

#[test]
fn more_than_one_state_change_is_refused() {
    let results = vec![
        vec![write("k1", &[1]), write("k2", &[2, 2])],
        vec![StateChange::Delete { key: "gone".to_string() }, write("k2", &[2, 2])],
        vec![write("k", &[1]), StateChange::Delete { key: "k".to_string() }],
        vec![write("k", &[1]), write("k", &[1]), write("k", &[1])],
    ];
    for state_changes in results {
        let result = BatchExecutionResult { receipts: vec![valid(state_changes)] };
        let error = commit_state("r", result).unwrap_err();
        assert_eq!(error.kind, ErrorKind::UnsupportedOperation);
        assert_eq!(error.message, "Found more than one state change");
    }
}

#[test]
fn rejected_transaction_keeps_the_handlers_words() {
    let result = BatchExecutionResult {
        receipts: vec![invalid("Not enough items")],
    };
    let error = commit_state("r", result).unwrap_err();
    assert_eq!(error.kind, ErrorKind::TransactionRejected);
    assert_eq!(error.message, "Not enough items");
}

#[test]
fn result_without_receipt_is_no_state_change() {
    let error = commit_state("r", BatchExecutionResult { receipts: vec![] }).unwrap_err();
    assert_eq!(error.kind, ErrorKind::NoStateChange);
    assert_eq!(error.message, "Unable to find the result");
}

#[test]
fn receipt_without_change_is_no_state_change() {
    let error =
        commit_state("r", BatchExecutionResult { receipts: vec![valid(vec![])] }).unwrap_err();
    assert_eq!(error.kind, ErrorKind::NoStateChange);
    assert_eq!(error.message, "Unable to find the receipt for the transaction");
}

#[test]
fn delete_is_an_unsupported_operation() {
    let result = BatchExecutionResult {
        receipts: vec![valid(vec![StateChange::Delete { key: "k".to_string() }])],
    };
    let error = commit_state("r", result).unwrap_err();
    assert_eq!(error.kind, ErrorKind::UnsupportedOperation);
    assert_eq!(error.message, "Found a delete operation");
}

#[test]
fn store_outcome_is_judged() {
    assert_eq!(committed(Ok("root-2".to_string())), Ok("root-2".to_string()));
    let error = committed(Err("root not found".to_string())).unwrap_err();
    assert_eq!(error.kind, ErrorKind::StateStoreError);
    assert_eq!(error.message, "root not found");
}

#[test]
fn rule_adds_and_takes() {
    assert_eq!(settle_command(Command::Produce, 0, 5), Ok(5));
    assert_eq!(settle_command(Command::Produce, 5, 7), Ok(12));
    assert_eq!(settle_command(Command::Consume, 5, 3), Ok(2));
    assert_eq!(settle_command(Command::Consume, 5, 5), Ok(0));
    assert_eq!(settle_command(Command::Produce, 5, 0), Ok(5));
    assert_eq!(settle_command(Command::Produce, i32::MAX - 1, 1), Ok(i32::MAX));
}

#[test]
fn rule_rejects() {
    assert_eq!(settle_command(Command::Consume, 2, 10), Err(Rejection::Insufficient));
    assert_eq!(settle_command(Command::Consume, 0, 1), Err(Rejection::Insufficient));
    assert_eq!(settle_command(Command::Produce, 1, -1), Err(Rejection::NegativeQuantity));
    assert_eq!(settle_command(Command::Consume, 1, -1), Err(Rejection::NegativeQuantity));
    assert_eq!(settle_command(Command::Produce, i32::MAX, 1), Err(Rejection::TooMany));
    assert_eq!(settle_command(Command::Produce, 1, i32::MAX), Err(Rejection::TooMany));
}

#[test]
fn rejection_messages() {
    assert_eq!(Rejection::NegativeQuantity.message(), "The quantity must not be negative");
    assert_eq!(
        Rejection::Insufficient.message(),
        "Not enough items are stored to consume that many"
    );
    assert_eq!(Rejection::TooMany.message(), "The stored quantity would exceed its limit");
}

#[test]
fn stored_quantity_is_read() {
    assert_eq!(read_stored(&None), Some(0));
    assert_eq!(read_stored(&Some(vec![0x05])), Some(5));
    assert_eq!(read_stored(&Some(vec![0xac, 0x02])), Some(300));
    assert_eq!(read_stored(&Some(vec![0xff, 0xff, 0xff, 0xff, 0x07])), Some(i32::MAX));
    assert_eq!(read_stored(&Some(vec![0x80, 0x80, 0x80, 0x80, 0x08])), None);
    assert_eq!(read_stored(&Some(vec![])), None);
    assert_eq!(read_stored(&Some(vec![0x05, 0x00])), None);
    assert_eq!(read_stored(&Some(vec![0x80])), None);
}

#[test]
fn two_produces_store_the_sum() {
    let key = address_key(&compute_address("widget"));
    let first = apply(&payload(Command::Produce, "widget", 5), None);
    assert_eq!(first, TransactionResult::Valid { state_changes: vec![write(&key, &[5])] });
    let second = apply(&payload(Command::Produce, "widget", 300), Some(vec![5]));
    assert_eq!(
        second,
        TransactionResult::Valid { state_changes: vec![write(&key, &[0xb1, 0x02])] }
    );
    assert_eq!(read_stored(&Some(vec![0xb1, 0x02])), Some(305));
}

#[test]
fn consume_takes_from_what_is_stored() {
    let key = address_key(&compute_address("widget"));
    assert_eq!(
        key,
        "ce2292488de9b786e56e5542751a98d65db3df4ecfc22ce85f48a74f63246a65328f0b"
    );
    let result = apply(&payload(Command::Consume, "widget", 3), Some(vec![5]));
    assert_eq!(result, TransactionResult::Valid { state_changes: vec![write(&key, &[2])] });
}

#[test]
fn consume_of_more_than_is_stored_is_rejected() {
    let expected = TransactionResult::Invalid {
        error_message: "Not enough items are stored to consume that many".to_string(),
    };
    assert_eq!(apply(&payload(Command::Consume, "widget", 10), Some(vec![2])), expected);
    assert_eq!(apply(&payload(Command::Consume, "widget", 1), None), expected);
}

#[test]
fn handler_rejects_what_it_cannot_read() {
    assert_eq!(
        apply(&[0x12, 0x09, b'x'], None),
        TransactionResult::Invalid {
            error_message: "Failed to unmarshal payload: unexpected end of input".to_string()
        }
    );
    assert_eq!(
        apply(&[0x0a, 0x00], None),
        TransactionResult::Invalid {
            error_message: "Failed to unmarshal payload: unexpected wire type".to_string()
        }
    );
    assert_eq!(
        apply(&payload(Command::Produce, "widget", 1), Some(vec![0x80])),
        TransactionResult::Invalid {
            error_message: "The stored quantity cannot be read".to_string()
        }
    );
    assert_eq!(
        apply(&payload(Command::Produce, "widget", -4), None),
        TransactionResult::Invalid {
            error_message: "The quantity must not be negative".to_string()
        }
    );
    assert_eq!(
        apply(&payload(Command::Produce, "widget", 1), Some(vec![0xff, 0xff, 0xff, 0xff, 0x07])),
        TransactionResult::Invalid {
            error_message: "The stored quantity would exceed its limit".to_string()
        }
    );
}

#[test]
fn item_key_is_the_hex_text_of_the_address() {
    assert_eq!(
        item_key(&payload(Command::Consume, "widget", 1)),
        Some("ce2292488de9b786e56e5542751a98d65db3df4ecfc22ce85f48a74f63246a65328f0b".to_string())
    );
    assert_eq!(item_key(&[]), Some(address_key(&compute_address(""))));
    assert_eq!(item_key(&[0x12, 0x09, b'x']), None);
}

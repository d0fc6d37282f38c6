use produce_consume::address::{address_key, compute_address};
use produce_consume::batcher::{Batch, Batcher, HashMethod, Transaction};
use produce_consume::error::{ErrorKind, PCError, ScheduleStage};
use produce_consume::handler::{apply, read_stored};
use produce_consume::pipeline::{
    BatchStep, Pipeline, PipelineAction, PipelineEvent, PipelineState,
};
use produce_consume::state_handler::{
    BatchExecutionResult, StateChange, TransactionReceipt, TransactionResult,
};
use std::collections::HashMap;

struct World {
    store: HashMap<String, Vec<u8>>,
    commits: usize,
}

fn new_world() -> World {
    World { store: HashMap::new(), commits: 0 }
}

fn new_pipeline() -> Pipeline {
    Pipeline::new(Batcher::new(vec![0x02, 0x11, 0x22]), "R0".to_string())
}

fn line(text: &str) -> PipelineEvent {
    PipelineEvent::Line { text: text.to_string(), nonce: vec![7, 7, 7] }
}

fn stored(world: &World, identifier: &str) -> Option<i32> {
    let key = address_key(&compute_address(identifier));
    read_stored(&world.store.get(&key).cloned())
}

/// Runs one line through the pipeline, doing the outer work in memory: the
/// signer copies the payload, the engine applies the handler to what is
/// stored, the store numbers its roots.
fn run(pipeline: &mut Pipeline, world: &mut World, text: &str) -> Result<String, PCError> {
    let request = match pipeline.step(line(text)).unwrap() {
        PipelineAction::SignTransaction(request) => request,
        PipelineAction::Abort(error) => return Err(error),
        other => panic!("unexpected action {:?}", other),
    };
    let key = address_key(&request.inputs[0]);
    let signed = Transaction {
        header: request.nonce.clone(),
        header_signature: "t-sig".to_string(),
        payload: request.payload.clone(),
    };
    let request = match pipeline.step(PipelineEvent::TransactionSigned(Ok(signed))).unwrap() {
        PipelineAction::SignBatch(request) => request,
        other => panic!("unexpected action {:?}", other),
    };
    let batch = Batch {
        header: vec![1],
        header_signature: "b-sig".to_string(),
        transactions: request.transactions,
    };
    let (batch, root) = match pipeline.step(PipelineEvent::BatchSigned(Ok(batch))).unwrap() {
        PipelineAction::Execute { batch, state_root } => (batch, state_root),
        other => panic!("unexpected action {:?}", other),
    };
    assert_eq!(root, pipeline.state_root());
    assert_eq!(batch.transactions.len(), 1);
    let result = apply(&batch.transactions[0].payload, world.store.get(&key).cloned());
    let receipts = vec![TransactionReceipt { transaction_result: result }];
    let executed = PipelineEvent::Executed(Ok(BatchExecutionResult { receipts }));
    let commit = match pipeline.step(executed).unwrap() {
        PipelineAction::Commit(commit) => commit,
        PipelineAction::Abort(error) => return Err(error),
        other => panic!("unexpected action {:?}", other),
    };
    assert_eq!(commit.state_root, root);
    world.store.insert(commit.key, commit.value);
    world.commits += 1;
    let new_root = format!("R{}", world.commits);
    match pipeline.step(PipelineEvent::Committed(Ok(new_root.clone()))).unwrap() {
        PipelineAction::ReadLine => Ok(new_root),
        other => panic!("unexpected action {:?}", other),
    }
}

#[test]
fn pipeline_starts_waiting_for_input() {
    let pipeline = new_pipeline();
    assert_eq!(pipeline.current_state(), PipelineState::AwaitInput);
    assert_eq!(pipeline.state_root(), "R0");
}

#[test]
fn line_becomes_a_transaction_request() {
    let mut pipeline = new_pipeline();
    let action = pipeline.step(line("PRODUCE widget 5")).unwrap();
    assert_eq!(pipeline.current_state(), PipelineState::Batch(BatchStep::Transaction));
    match action {
        PipelineAction::SignTransaction(request) => {
            assert_eq!(request.batcher_public_key, vec![0x02, 0x11, 0x22]);
            assert_eq!(request.family_name, "produce-consume");
            assert_eq!(request.family_version, "1.0");
            assert_eq!(request.inputs, vec![compute_address("widget")]);
            assert_eq!(request.outputs, vec![compute_address("widget")]);
            assert_eq!(request.nonce, vec![7, 7, 7]);
            assert_eq!(request.payload_hash_method, HashMethod::Sha512);
            assert_eq!(
                request.payload,
                vec![0x12, 0x06, b'w', b'i', b'd', b'g', b'e', b't', 0x18, 0x05]
            );
        }
        other => panic!("unexpected action {:?}", other),
    }
}

#[test]
fn produce_then_consume_then_overdraw() {
    let mut pipeline = new_pipeline();
    let mut world = new_world();

    let r1 = run(&mut pipeline, &mut world, "PRODUCE widget 5").unwrap();
    assert_eq!(r1, "R1");
    assert_eq!(pipeline.state_root(), "R1");
    assert_eq!(pipeline.current_state(), PipelineState::AwaitInput);
    assert_eq!(stored(&world, "widget"), Some(5));

    let r2 = run(&mut pipeline, &mut world, "CONSUME widget 3").unwrap();
    assert_eq!(r2, "R2");
    assert_ne!(r2, r1);
    assert_eq!(pipeline.state_root(), "R2");
    assert_eq!(stored(&world, "widget"), Some(2));

    let error = run(&mut pipeline, &mut world, "CONSUME widget 10").unwrap_err();
    assert_eq!(error.kind, ErrorKind::TransactionRejected);
    assert_eq!(error.message, "Not enough items are stored to consume that many");
    assert_eq!(pipeline.state_root(), "R2");
    assert_eq!(pipeline.current_state(), PipelineState::Aborted);
    assert_eq!(stored(&world, "widget"), Some(2));
    assert_eq!(world.commits, 2);
}

#[test]
fn two_produces_add_up() {
    let mut pipeline = new_pipeline();
    let mut world = new_world();
    run(&mut pipeline, &mut world, "PRODUCE bolt 40\n").unwrap();
    run(&mut pipeline, &mut world, "PRODUCE bolt 2\n").unwrap();
    assert_eq!(stored(&world, "bolt"), Some(42));
    assert_eq!(stored(&world, "nut"), Some(0));
    assert_eq!(pipeline.state_root(), "R2");
}

#[test]
fn line_without_quantity_aborts_before_anything_is_built() {
    let mut pipeline = new_pipeline();
    let action = pipeline.step(line("PRODUCE widget")).unwrap();
    assert_eq!(
        action,
        PipelineAction::Abort(PCError {
            kind: ErrorKind::FormatError,
            message: "Please input \"[PRODUCE|CONSUME] <identifier> <quantity>\"".to_string(),
        })
    );
    assert_eq!(pipeline.current_state(), PipelineState::Aborted);
    assert_eq!(pipeline.state_root(), "R0");
}

#[test]
fn malformed_lines_abort_with_a_format_error() {
    for text in ["SELL widget 5", "PRODUCE widget five", "PRODUCE widget 99999999999", ""] {
        let mut pipeline = new_pipeline();
        match pipeline.step(line(text)).unwrap() {
            PipelineAction::Abort(error) => assert_eq!(error.kind, ErrorKind::FormatError),
            other => panic!("unexpected action {:?}", other),
        }
        assert_eq!(pipeline.current_state(), PipelineState::Aborted);
        assert_eq!(pipeline.state_root(), "R0");
    }
}

#[test]
fn aborted_pipeline_takes_nothing() {
    let mut pipeline = new_pipeline();
    pipeline.step(line("nonsense")).unwrap();
    assert_eq!(pipeline.step(line("PRODUCE widget 5")), None);
    assert_eq!(pipeline.step(PipelineEvent::Committed(Ok("R9".to_string()))), None);
    assert_eq!(pipeline.step(PipelineEvent::TransactionSigned(Err("x".to_string()))), None);
    assert_eq!(pipeline.step(PipelineEvent::BatchSigned(Err("x".to_string()))), None);
    assert_eq!(
        pipeline.step(PipelineEvent::Executed(Ok(BatchExecutionResult { receipts: vec![] }))),
        None
    );
    assert_eq!(pipeline.current_state(), PipelineState::Aborted);
    assert_eq!(pipeline.state_root(), "R0");
}

#[test]
fn event_out_of_turn_changes_nothing() {
    let mut pipeline = new_pipeline();
    assert_eq!(pipeline.step(PipelineEvent::Committed(Ok("R9".to_string()))), None);
    assert_eq!(pipeline.current_state(), PipelineState::AwaitInput);
    assert_eq!(pipeline.state_root(), "R0");
    pipeline.step(line("PRODUCE widget 5")).unwrap();
    assert_eq!(pipeline.step(line("PRODUCE widget 5")), None);
    assert_eq!(pipeline.current_state(), PipelineState::Batch(BatchStep::Transaction));
}

#[test]
fn signer_failures_abort() {
    let mut pipeline = new_pipeline();
    pipeline.step(line("PRODUCE widget 5")).unwrap();
    let action = pipeline.step(PipelineEvent::TransactionSigned(Err("no key".to_string())));
    assert_eq!(
        action,
        Some(PipelineAction::Abort(PCError {
            kind: ErrorKind::SigningError,
            message: "Txn Builder: no key".to_string(),
        }))
    );
    assert_eq!(pipeline.current_state(), PipelineState::Aborted);

    let mut pipeline = new_pipeline();
    pipeline.step(line("PRODUCE widget 5")).unwrap();
    let signed = Transaction {
        header: vec![1],
        header_signature: "s".to_string(),
        payload: vec![2],
    };
    pipeline.step(PipelineEvent::TransactionSigned(Ok(signed))).unwrap();
    assert_eq!(pipeline.current_state(), PipelineState::Batch(BatchStep::Envelope));
    let action = pipeline.step(PipelineEvent::BatchSigned(Err("no key".to_string())));
    assert_eq!(
        action,
        Some(PipelineAction::Abort(PCError {
            kind: ErrorKind::SigningError,
            message: "BatchBuilder: no key".to_string(),
        }))
    );
    assert_eq!(pipeline.current_state(), PipelineState::Aborted);
    assert_eq!(pipeline.state_root(), "R0");
}

fn pipeline_in_schedule() -> Pipeline {
    let mut pipeline = new_pipeline();
    pipeline.step(line("PRODUCE widget 5")).unwrap();
    let signed = Transaction {
        header: vec![1],
        header_signature: "s".to_string(),
        payload: vec![2],
    };
    pipeline.step(PipelineEvent::TransactionSigned(Ok(signed.clone()))).unwrap();
    let batch = Batch {
        header: vec![3],
        header_signature: "b".to_string(),
        transactions: vec![signed],
    };
    pipeline.step(PipelineEvent::BatchSigned(Ok(batch))).unwrap();
    assert_eq!(pipeline.current_state(), PipelineState::Schedule);
    pipeline
}

#[test]
fn scheduling_failure_aborts_with_its_error() {
    let mut pipeline = pipeline_in_schedule();
    let error = PCError {
        kind: ErrorKind::SchedulingError(ScheduleStage::AddBatch),
        message: "queue full".to_string(),
    };
    assert_eq!(
        pipeline.step(PipelineEvent::Executed(Err(error.clone()))),
        Some(PipelineAction::Abort(error))
    );
    assert_eq!(pipeline.current_state(), PipelineState::Aborted);
    assert_eq!(pipeline.state_root(), "R0");
}

#[test]
fn result_shapes_other_than_one_write_abort() {
    let one_write = TransactionReceipt {
        transaction_result: TransactionResult::Valid {
            state_changes: vec![StateChange::Write { key: "k".to_string(), value: vec![1] }],
        },
    };
    let two_writes = TransactionReceipt {
        transaction_result: TransactionResult::Valid {
            state_changes: vec![
                StateChange::Write { key: "k".to_string(), value: vec![1] },
                StateChange::Write { key: "l".to_string(), value: vec![2] },
            ],
        },
    };
    let shapes = vec![
        (vec![one_write.clone(), one_write], ErrorKind::UnsupportedOperation),
        (vec![two_writes], ErrorKind::UnsupportedOperation),
        (vec![], ErrorKind::NoStateChange),
        (
            vec![TransactionReceipt {
                transaction_result: TransactionResult::Valid { state_changes: vec![] },
            }],
            ErrorKind::NoStateChange,
        ),
        (
            vec![TransactionReceipt {
                transaction_result: TransactionResult::Valid {
                    state_changes: vec![StateChange::Delete { key: "k".to_string() }],
                },
            }],
            ErrorKind::UnsupportedOperation,
        ),
        (
            vec![TransactionReceipt {
                transaction_result: TransactionResult::Invalid {
                    error_message: "no".to_string(),
                },
            }],
            ErrorKind::TransactionRejected,
        ),
    ];
    for (receipts, kind) in shapes {
        let mut pipeline = pipeline_in_schedule();
        match pipeline.step(PipelineEvent::Executed(Ok(BatchExecutionResult { receipts }))) {
            Some(PipelineAction::Abort(error)) => assert_eq!(error.kind, kind),
            other => panic!("unexpected action {:?}", other),
        }
        assert_eq!(pipeline.current_state(), PipelineState::Aborted);
        assert_eq!(pipeline.state_root(), "R0");
    }
}

#[test]
fn store_failure_aborts_and_keeps_the_root() {
    let mut pipeline = pipeline_in_schedule();
    let receipts = vec![TransactionReceipt {
        transaction_result: TransactionResult::Valid {
            state_changes: vec![StateChange::Write { key: "k".to_string(), value: vec![1] }],
        },
    }];
    let action = pipeline.step(PipelineEvent::Executed(Ok(BatchExecutionResult { receipts })));
    match action {
        Some(PipelineAction::Commit(request)) => {
            assert_eq!(request.state_root, "R0");
            assert_eq!(request.key, "k");
            assert_eq!(request.value, vec![1]);
        }
        other => panic!("unexpected action {:?}", other),
    }
    assert_eq!(pipeline.current_state(), PipelineState::Commit);
    let action = pipeline.step(PipelineEvent::Committed(Err("root not found".to_string())));
    assert_eq!(
        action,
        Some(PipelineAction::Abort(PCError {
            kind: ErrorKind::StateStoreError,
            message: "root not found".to_string(),
        }))
    );
    assert_eq!(pipeline.current_state(), PipelineState::Aborted);
    assert_eq!(pipeline.state_root(), "R0");
}

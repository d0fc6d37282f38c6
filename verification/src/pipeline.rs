//! The control loop as a state machine: one command at a time, from the
//! input line to the committed root. The caller performs each action and
//! reports what happened; any failure aborts the pipeline for good.

use vstd::prelude::*;
use vstd::string::*;
use crate::action::{encodable, encode_action};
use crate::batcher::{batch_failure_prefix, family_name, family_version,
    transaction_failure_prefix, Batch, BatchRequest, Batcher, HashMethod, Transaction,
    TransactionRequest};
use crate::error::{ErrorKind, PCError};
use crate::payload::{lemma_parse_command_meaning, parse_command, well_formed};
use crate::state_handler::{commit_state, committed, single_change, BatchExecutionResult,
    CommitRequest};
use crate::transaction::{is_single_address, transaction_payload};

verus! {

/// What the batch stage is waiting for.
#[derive(Clone, Copy, Debug, PartialEq, Eq, Structural)]
pub enum BatchStep {
    /// The signed transaction.
    Transaction,
    /// The signed batch around it.
    Envelope,
}

/// Where the pipeline stands.
#[derive(Clone, Copy, Debug, PartialEq, Eq, Structural)]
pub enum PipelineState {
    /// Waiting for the next input line.
    AwaitInput,
    /// Encoding the line. This lasts only within the step that takes the line.
    Encode,
    /// Waiting for the signer.
    Batch(BatchStep),
    /// Waiting for the execution engine.
    Schedule,
    /// Waiting for the state store.
    Commit,
    /// Stopped by a failure. Nothing follows.
    Aborted,
}

/// What the caller reports.
#[derive(Debug, PartialEq, Eq)]
pub enum PipelineEvent {
    /// An input line was read; `nonce` is fresh for its transaction.
    Line { text: String, nonce: Vec<u8> },
    /// The signer answered the transaction request.
    TransactionSigned(Result<Transaction, String>),
    /// The signer answered the batch request.
    BatchSigned(Result<Batch, String>),
    /// The execution of the batch ended.
    Executed(Result<BatchExecutionResult, PCError>),
    /// The state store answered the commit.
    Committed(Result<String, String>),
}

/// What the caller is to do next.
#[derive(Clone, Debug, PartialEq, Eq)]
pub enum PipelineAction {
    /// Read the next input line.
    ReadLine,
    /// Build and sign this transaction.
    SignTransaction(TransactionRequest),
    /// Build and sign this batch.
    SignBatch(BatchRequest),
    /// Execute this batch on top of this root.
    Execute { batch: Batch, state_root: String },
    /// Commit this write.
    Commit(CommitRequest),
    /// Stop: the pipeline has failed.
    Abort(PCError),
}

/// The pipeline: its state, the current state root and the batcher.
#[derive(Clone, Debug, PartialEq, Eq)]
pub struct Pipeline {
    state: PipelineState,
    state_root: String,
    batcher: Batcher,
}

/// Whether the pipeline, in `state`, is waiting for `event`.
pub open spec fn expects(state: PipelineState, event: PipelineEvent) -> bool {
    match event {
        PipelineEvent::Line { .. } => state == PipelineState::AwaitInput,
        PipelineEvent::TransactionSigned(_) => state == PipelineState::Batch(
            BatchStep::Transaction,
        ),
        PipelineEvent::BatchSigned(_) => state == PipelineState::Batch(BatchStep::Envelope),
        PipelineEvent::Executed(_) => state == PipelineState::Schedule,
        PipelineEvent::Committed(_) => state == PipelineState::Commit,
    }
}

/// Whether an input line yields a payload: it is a well-formed command whose
/// identifier can be written.
pub open spec fn line_accepted(text: Seq<char>) -> bool {
    match parse_command(text) {
        Ok(a) => encodable(a),
        Err(_) => false,
    }
}

/// Whether what the caller reports lets the pipeline go on.
pub open spec fn succeeds(event: PipelineEvent) -> bool {
    match event {
        PipelineEvent::Line { text, nonce } => line_accepted(text@),
        PipelineEvent::TransactionSigned(outcome) => outcome is Ok,
        PipelineEvent::BatchSigned(outcome) => outcome is Ok,
        PipelineEvent::Executed(outcome) => match outcome {
            Ok(result) => single_change(result.receipts@) is Ok,
            Err(_) => false,
        },
        PipelineEvent::Committed(outcome) => outcome is Ok,
    }
}

/// The state that follows `state` when its work succeeds.
pub open spec fn state_after(state: PipelineState) -> PipelineState {
    match state {
        PipelineState::AwaitInput => PipelineState::Batch(BatchStep::Transaction),
        PipelineState::Encode => PipelineState::Batch(BatchStep::Transaction),
        PipelineState::Batch(BatchStep::Transaction) => PipelineState::Batch(BatchStep::Envelope),
        PipelineState::Batch(BatchStep::Envelope) => PipelineState::Schedule,
        PipelineState::Schedule => PipelineState::Commit,
        PipelineState::Commit => PipelineState::AwaitInput,
        PipelineState::Aborted => PipelineState::Aborted,
    }
}

/// The state after `event` is reported in `state`: unchanged where the
/// event is not waited for, the next state where it succeeds, aborted
/// otherwise.
pub open spec fn next_state(state: PipelineState, event: PipelineEvent) -> PipelineState {
    if !expects(state, event) {
        state
    } else if succeeds(event) {
        state_after(state)
    } else {
        PipelineState::Aborted
    }
}

/// The state root after `event` is reported in `state`: the root that the
/// state store hands back for a commit, and the old root in every other case.
pub open spec fn next_root(state: PipelineState, root: Seq<char>, event: PipelineEvent) -> Seq<
    char,
> {
    match event {
        PipelineEvent::Committed(Ok(new_root)) => if state == PipelineState::Commit {
            new_root@
        } else {
            root
        },
        _ => root,
    }
}

/// Law: an aborted pipeline waits for nothing: whatever is reported, its
/// state and its root stay.
pub proof fn lemma_aborted_is_terminal(root: Seq<char>, event: PipelineEvent)
    ensures
        !expects(PipelineState::Aborted, event),
        next_state(PipelineState::Aborted, event) == PipelineState::Aborted,
        next_root(PipelineState::Aborted, root, event) == root,
{
}

/// Law: the root changes only when the state store answers a commit with a
/// new root while the pipeline waits for it.
pub proof fn lemma_root_changes_on_commit_only(
    state: PipelineState,
    root: Seq<char>,
    event: PipelineEvent,
)
    requires
        next_root(state, root, event) != root,
    ensures
        state == PipelineState::Commit,
        event matches PipelineEvent::Committed(Ok(_)),
        next_state(state, event) == PipelineState::AwaitInput,
{
}

/// Law: a line that is not a well-formed command aborts the pipeline and
/// leaves the root as it was: nothing is built, run or committed for it.
pub proof fn lemma_malformed_line_aborts(root: Seq<char>, text: String, nonce: Vec<u8>)
    requires
        !well_formed(text@),
    ensures
        parse_command(text@) is Err,
        next_state(PipelineState::AwaitInput, PipelineEvent::Line { text, nonce })
            == PipelineState::Aborted,
        next_root(PipelineState::AwaitInput, root, PipelineEvent::Line { text, nonce }) == root,
{
    lemma_parse_command_meaning(text@);
}

/// Law: a result whose one receipt is a rejection aborts the pipeline as a
/// rejected transaction, with the handler's words as they are, and leaves
/// the root as it was before the attempt.
pub proof fn lemma_rejection_leaves_root(root: Seq<char>, result: BatchExecutionResult)
    requires
        result.receipts@.len() == 1,
        result.receipts@[0].transaction_result is Invalid,
    ensures
        single_change(result.receipts@) == Err::<(Seq<char>, Seq<u8>), (ErrorKind, Seq<char>)>(
            (
                ErrorKind::TransactionRejected,
                result.receipts@[0].transaction_result->error_message@,
            ),
        ),
        next_state(PipelineState::Schedule, PipelineEvent::Executed(Ok(result)))
            == PipelineState::Aborted,
        next_root(PipelineState::Schedule, root, PipelineEvent::Executed(Ok(result))) == root,
{
}

impl Pipeline {
    /// A pipeline that waits for its first line, on top of `state_root`.
    pub fn new(batcher: Batcher, state_root: String) -> (pipeline: Pipeline)
        ensures
            pipeline.state() == PipelineState::AwaitInput,
            pipeline.root() == state_root@,
            pipeline.key() == batcher.public_key_bytes(),
    {
        Pipeline { state: PipelineState::AwaitInput, state_root, batcher }
    }

    /// Where the pipeline stands.
    pub closed spec fn state(&self) -> PipelineState {
        self.state
    }

    /// The current state root.
    pub closed spec fn root(&self) -> Seq<char> {
        self.state_root@
    }

    /// The public key of the signing identity.
    pub closed spec fn key(&self) -> Seq<u8> {
        self.batcher.public_key_bytes()
    }

    /// Where the pipeline stands.
    pub fn current_state(&self) -> (state: PipelineState)
        ensures
            state == self.state(),
    {
        self.state
    }

    /// The current state root.
    pub fn state_root(&self) -> (root: String)
        ensures
            root@ == self.root(),
    {
        self.state_root.clone()
    }

    /// Takes what the caller reports and decides what is to be done next.
    ///
    /// An event that the pipeline is not waiting for changes nothing and gets
    /// no action. Otherwise the state moves on where the event succeeds and
    /// to `Aborted` where it does not, and the action says what to do:
    ///
    /// - a line becomes a transaction request for the line's payload, with
    ///   the identifier's address as the one input and the one output;
    /// - a signed transaction becomes a request for a batch of that one
    ///   transaction;
    /// - a signed batch is to be executed on top of the current root;
    /// - an execution result of exactly one valid receipt with exactly one
    ///   write becomes a commit of that write against the current root;
    /// - a new root from the state store becomes the current root, and the
    ///   next line is to be read;
    /// - a failure becomes an abort with the error of the failing stage.
    pub fn step(&mut self, event: PipelineEvent) -> (action: Option<PipelineAction>)
        ensures
            final(self).state() == next_state(old(self).state(), event),
            final(self).root() == next_root(old(self).state(), old(self).root(), event),
            final(self).key() == old(self).key(),
            action is Some <==> expects(old(self).state(), event),
            expects(old(self).state(), event) ==> match event {
                PipelineEvent::Line { text, nonce } => match parse_command(text@) {
                    Err(cause) => action matches Some(PipelineAction::Abort(e)) && e.kind
                        == ErrorKind::FormatError && e.message@ == cause,
                    Ok(a) => if encodable(a) {
                        action matches Some(PipelineAction::SignTransaction(request)) && {
                            &&& request.batcher_public_key@ == old(self).key()
                            &&& request.family_name@ == family_name()
                            &&& request.family_version@ == family_version()
                            &&& is_single_address(request.inputs@, a.identifier)
                            &&& is_single_address(request.outputs@, a.identifier)
                            &&& request.nonce == nonce
                            &&& request.payload_hash_method == HashMethod::Sha512
                            &&& request.payload@ == encode_action(a)
                        }
                    } else {
                        action matches Some(PipelineAction::Abort(e)) && e.kind
                            == ErrorKind::CodecError && e.message@
                            == "The identifier is too long to encode"@
                    },
                },
                PipelineEvent::TransactionSigned(outcome) => match outcome {
                    Ok(transaction) => action matches Some(PipelineAction::SignBatch(request))
                        && request.transactions@ == seq![transaction],
                    Err(cause) => action matches Some(PipelineAction::Abort(e)) && e.kind
                        == ErrorKind::SigningError && e.message@ == transaction_failure_prefix()
                        + cause@,
                },
                PipelineEvent::BatchSigned(outcome) => match outcome {
                    Ok(signed) => action matches Some(
                        PipelineAction::Execute { batch, state_root },
                    ) && batch == signed && state_root@ == old(self).root(),
                    Err(cause) => action matches Some(PipelineAction::Abort(e)) && e.kind
                        == ErrorKind::SigningError && e.message@ == batch_failure_prefix()
                        + cause@,
                },
                PipelineEvent::Executed(outcome) => match outcome {
                    Ok(result) => match single_change(result.receipts@) {
                        Ok((key, value)) => action matches Some(PipelineAction::Commit(request))
                            && request.state_root@ == old(self).root() && request.key@ == key
                            && request.value@ == value,
                        Err((kind, cause)) => action matches Some(PipelineAction::Abort(e))
                            && e.kind == kind && e.message@ == cause,
                    },
                    Err(error) => action == Some(PipelineAction::Abort(error)),
                },
                PipelineEvent::Committed(outcome) => match outcome {
                    Ok(_) => action == Some(PipelineAction::ReadLine),
                    Err(cause) => action matches Some(PipelineAction::Abort(e)) && e.kind
                        == ErrorKind::StateStoreError && e.message@ == cause@,
                },
            },
    {
        match event {
            PipelineEvent::Line { text, nonce } => {
                if self.state != PipelineState::AwaitInput {
                    return None;
                }
                self.state = PipelineState::Encode;
                match transaction_payload(text.as_str()) {
                    Ok((payload, inputs, outputs)) => {
                        let request = self.batcher.get_txn(
                            payload.as_slice(),
                            inputs,
                            outputs,
                            nonce,
                        );
                        self.state = PipelineState::Batch(BatchStep::Transaction);
                        Some(PipelineAction::SignTransaction(request))
                    },
                    Err(error) => {
                        self.state = PipelineState::Aborted;
                        Some(PipelineAction::Abort(error))
                    },
                }
            },
            PipelineEvent::TransactionSigned(outcome) => {
                if self.state != PipelineState::Batch(BatchStep::Transaction) {
                    return None;
                }
                match Batcher::signed_txn(outcome) {
                    Ok(transaction) => {
                        let request = self.batcher.get_batch(transaction);
                        self.state = PipelineState::Batch(BatchStep::Envelope);
                        Some(PipelineAction::SignBatch(request))
                    },
                    Err(error) => {
                        self.state = PipelineState::Aborted;
                        Some(PipelineAction::Abort(error))
                    },
                }
            },
            PipelineEvent::BatchSigned(outcome) => {
                if self.state != PipelineState::Batch(BatchStep::Envelope) {
                    return None;
                }
                match Batcher::signed_batch(outcome) {
                    Ok(batch) => {
                        self.state = PipelineState::Schedule;
                        Some(
                            PipelineAction::Execute { batch, state_root: self.state_root.clone() },
                        )
                    },
                    Err(error) => {
                        self.state = PipelineState::Aborted;
                        Some(PipelineAction::Abort(error))
                    },
                }
            },
            PipelineEvent::Executed(outcome) => {
                if self.state != PipelineState::Schedule {
                    return None;
                }
                let result = match outcome {
                    Ok(result) => result,
                    Err(error) => {
                        self.state = PipelineState::Aborted;
                        return Some(PipelineAction::Abort(error));
                    },
                };
                match commit_state(self.state_root.as_str(), result) {
                    Ok(request) => {
                        self.state = PipelineState::Commit;
                        Some(PipelineAction::Commit(request))
                    },
                    Err(error) => {
                        self.state = PipelineState::Aborted;
                        Some(PipelineAction::Abort(error))
                    },
                }
            },
            PipelineEvent::Committed(outcome) => {
                if self.state != PipelineState::Commit {
                    return None;
                }
                match committed(outcome) {
                    Ok(root) => {
                        self.state_root = root;
                        self.state = PipelineState::AwaitInput;
                        Some(PipelineAction::ReadLine)
                    },
                    Err(error) => {
                        self.state = PipelineState::Aborted;
                        Some(PipelineAction::Abort(error))
                    },
                }
            },
        }
    }
}

} // verus!

//! The failures of the pipeline: a kind from a fixed taxonomy and the
//! underlying cause as text.

use vstd::prelude::*;
use vstd::string::*;

verus! {

/// The steps of submitting a batch to the execution engine, in protocol order.
#[derive(Clone, Copy, Debug, PartialEq, Eq, Structural)]
pub enum ScheduleStage {
    /// Creating a scheduler bound to the current state root.
    CreateScheduler,
    /// Registering the callback that hands the result over.
    RegisterCallback,
    /// Adding the batch.
    AddBatch,
    /// Finalizing the scheduler: no batch may follow.
    Finalize,
    /// Taking the engine's task stream.
    TakeTasks,
    /// Creating the notifier for the task stream.
    NewNotifier,
    /// Handing the task stream to the executor.
    Execute,
    /// Waiting for the completion notification.
    AwaitResult,
}

/// What went wrong, by pipeline component.
#[derive(Clone, Copy, Debug, PartialEq, Eq, Structural)]
pub enum ErrorKind {
    /// The command text is malformed.
    FormatError,
    /// The payload bytes could not be written or read.
    CodecError,
    /// Building or signing a transaction or a batch failed.
    SigningError,
    /// A step of submission or execution failed.
    SchedulingError(ScheduleStage),
    /// The handler rejected the transaction.
    TransactionRejected,
    /// The execution result carries no receipt or no state change.
    NoStateChange,
    /// The result has a shape that is not supported: more than one receipt
    /// or state change, or a state change that is not a write.
    UnsupportedOperation,
    /// The state store refused the commit.
    StateStoreError,
}

/// Why bytes are no payload message.
#[derive(Clone, Copy, Debug, PartialEq, Eq, Structural)]
pub enum WireError {
    /// The bytes end inside a field.
    UnexpectedEnd,
    /// An integer is not finished after ten bytes.
    IncorrectVarint,
    /// A tag has the field number zero or a wire type that does not exist.
    IncorrectTag,
    /// A field has a wire type that it cannot have where it stands.
    UnexpectedWireType,
    /// The identifier is not valid UTF-8.
    InvalidUtf8,
}

/// A failure of one pipeline stage.
#[derive(Clone, Debug, PartialEq, Eq)]
pub struct PCError {
    /// The component and the way it failed.
    pub kind: ErrorKind,
    /// The underlying cause, as the failing party worded it.
    pub message: String,
}

/// The name under which a schedule stage appears in diagnostics.
pub open spec fn stage_label(stage: ScheduleStage) -> Seq<char> {
    match stage {
        ScheduleStage::CreateScheduler => "scheduler construction"@,
        ScheduleStage::RegisterCallback => "callback registration"@,
        ScheduleStage::AddBatch => "batch addition"@,
        ScheduleStage::Finalize => "finalize"@,
        ScheduleStage::TakeTasks => "task-stream retrieval"@,
        ScheduleStage::NewNotifier => "notifier creation"@,
        ScheduleStage::Execute => "executor dispatch"@,
        ScheduleStage::AwaitResult => "result wait"@,
    }
}

/// The name under which an error kind appears in diagnostics.
pub open spec fn kind_label(kind: ErrorKind) -> Seq<char> {
    match kind {
        ErrorKind::FormatError => "FormatError"@,
        ErrorKind::CodecError => "CodecError"@,
        ErrorKind::SigningError => "SigningError"@,
        ErrorKind::SchedulingError(stage) => "SchedulingError at "@ + stage_label(stage),
        ErrorKind::TransactionRejected => "TransactionRejected"@,
        ErrorKind::NoStateChange => "NoStateChange"@,
        ErrorKind::UnsupportedOperation => "UnsupportedOperation"@,
        ErrorKind::StateStoreError => "StateStoreError"@,
    }
}

/// The words that say why bytes are no payload message.
pub open spec fn wire_error_text(error: WireError) -> Seq<char> {
    match error {
        WireError::UnexpectedEnd => "unexpected end of input"@,
        WireError::IncorrectVarint => "integer longer than ten bytes"@,
        WireError::IncorrectTag => "incorrect tag"@,
        WireError::UnexpectedWireType => "unexpected wire type"@,
        WireError::InvalidUtf8 => "identifier is not valid UTF-8"@,
    }
}

/// The words put before the cause where a payload cannot be read.
pub open spec fn unmarshal_prefix() -> Seq<char> {
    "Failed to unmarshal payload: "@
}

/// The message for a payload that cannot be read: the prefix, then the cause.
pub open spec fn unmarshal_text(error: WireError) -> Seq<char> {
    unmarshal_prefix() + wire_error_text(error)
}

/// Law: the message for a payload that cannot be read starts with the fixed
/// prefix, whatever the cause, and goes on with the words of the cause.
pub proof fn lemma_unmarshal_text_starts_with_prefix(error: WireError)
    ensures
        unmarshal_text(error).len() == unmarshal_prefix().len() + wire_error_text(error).len(),
        unmarshal_text(error).subrange(0, unmarshal_prefix().len() as int) == unmarshal_prefix(),
        unmarshal_text(error).skip(unmarshal_prefix().len() as int) == wire_error_text(error),
{
    let prefix = unmarshal_prefix();
    let cause = wire_error_text(error);
    assert((prefix + cause).subrange(0, prefix.len() as int) =~= prefix);
    assert((prefix + cause).skip(prefix.len() as int) =~= cause);
}

/// The full diagnostic: the kind's label, a colon and a space, the cause.
pub open spec fn diagnostic(kind: ErrorKind, message: Seq<char>) -> Seq<char> {
    kind_label(kind) + ": "@ + message
}

impl ScheduleStage {
    /// The stage's name in diagnostics.
    pub fn label(&self) -> (text: &'static str)
        ensures
            text@ == stage_label(*self),
    {
        match self {
            ScheduleStage::CreateScheduler => "scheduler construction",
            ScheduleStage::RegisterCallback => "callback registration",
            ScheduleStage::AddBatch => "batch addition",
            ScheduleStage::Finalize => "finalize",
            ScheduleStage::TakeTasks => "task-stream retrieval",
            ScheduleStage::NewNotifier => "notifier creation",
            ScheduleStage::Execute => "executor dispatch",
            ScheduleStage::AwaitResult => "result wait",
        }
    }
}

impl WireError {
    /// The reason in words.
    pub fn message(&self) -> (text: &'static str)
        ensures
            text@ == wire_error_text(*self),
    {
        match self {
            WireError::UnexpectedEnd => "unexpected end of input",
            WireError::IncorrectVarint => "integer longer than ten bytes",
            WireError::IncorrectTag => "incorrect tag",
            WireError::UnexpectedWireType => "unexpected wire type",
            WireError::InvalidUtf8 => "identifier is not valid UTF-8",
        }
    }
}

impl ErrorKind {
    /// The kind's name in diagnostics.
    pub fn label(&self) -> (text: String)
        ensures
            text@ == kind_label(*self),
    {
        match self {
            ErrorKind::FormatError => String::from_str("FormatError"),
            ErrorKind::CodecError => String::from_str("CodecError"),
            ErrorKind::SigningError => String::from_str("SigningError"),
            ErrorKind::SchedulingError(stage) => {
                String::from_str("SchedulingError at ").concat(stage.label())
            },
            ErrorKind::TransactionRejected => String::from_str("TransactionRejected"),
            ErrorKind::NoStateChange => String::from_str("NoStateChange"),
            ErrorKind::UnsupportedOperation => String::from_str("UnsupportedOperation"),
            ErrorKind::StateStoreError => String::from_str("StateStoreError"),
        }
    }
}

impl PCError {
    /// An error of the given kind with the given cause.
    pub fn new(kind: ErrorKind, message: String) -> (err: PCError)
        ensures
            err.kind == kind,
            err.message@ == message@,
    {
        PCError { kind, message }
    }

    /// An error of the given kind whose cause is a fixed text.
    pub fn from_text(kind: ErrorKind, message: &str) -> (err: PCError)
        ensures
            err.kind == kind,
            err.message@ == message@,
    {
        PCError { kind, message: String::from_str(message) }
    }

    /// The codec error for a payload that cannot be read: the fixed prefix,
    /// then the cause.
    pub fn unmarshal(cause: WireError) -> (err: PCError)
        ensures
            err.kind == ErrorKind::CodecError,
            err.message@ == unmarshal_text(cause),
    {
        PCError {
            kind: ErrorKind::CodecError,
            message: String::from_str("Failed to unmarshal payload: ").concat(cause.message()),
        }
    }

    /// The diagnostic shown to the operator: it names the failing component
    /// (and, for scheduling, the stage) and gives the underlying cause.
    pub fn describe(&self) -> (text: String)
        ensures
            text@ == diagnostic(self.kind, self.message@),
    {
        self.kind.label().concat(": ").concat(self.message.as_str())
    }
}

} // verus!

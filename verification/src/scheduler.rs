//! The protocol of one execution: eight stages in a fixed order, the last of
//! which waits for the result. Each stage is the caller's to perform; what
//! follows from how it went is decided here.

use vstd::prelude::*;
use vstd::string::*;
use crate::error::{ErrorKind, PCError, ScheduleStage};
use crate::state_handler::BatchExecutionResult;

verus! {

/// The place of a stage in the protocol, from zero.
pub open spec fn stage_index(stage: ScheduleStage) -> nat {
    match stage {
        ScheduleStage::CreateScheduler => 0,
        ScheduleStage::RegisterCallback => 1,
        ScheduleStage::AddBatch => 2,
        ScheduleStage::Finalize => 3,
        ScheduleStage::TakeTasks => 4,
        ScheduleStage::NewNotifier => 5,
        ScheduleStage::Execute => 6,
        ScheduleStage::AwaitResult => 7,
    }
}

/// The stage that follows `stage`, if any.
pub open spec fn stage_after(stage: ScheduleStage) -> Option<ScheduleStage> {
    match stage {
        ScheduleStage::CreateScheduler => Some(ScheduleStage::RegisterCallback),
        ScheduleStage::RegisterCallback => Some(ScheduleStage::AddBatch),
        ScheduleStage::AddBatch => Some(ScheduleStage::Finalize),
        ScheduleStage::Finalize => Some(ScheduleStage::TakeTasks),
        ScheduleStage::TakeTasks => Some(ScheduleStage::NewNotifier),
        ScheduleStage::NewNotifier => Some(ScheduleStage::Execute),
        ScheduleStage::Execute => Some(ScheduleStage::AwaitResult),
        ScheduleStage::AwaitResult => None,
    }
}

/// The cause given where the engine reports that there is no result.
pub open spec fn no_result_text() -> Seq<char> {
    "Unexpected error, no result found"@
}

/// The cause given where a result is handed over before the wait for it.
pub open spec fn early_result_text() -> Seq<char> {
    "Unexpected result before the wait for it"@
}

/// How a stage went.
#[derive(Clone, Debug, PartialEq, Eq)]
pub enum StageOutcome {
    /// The stage is done; at the last stage, the wait ended without a result.
    Completed,
    /// The stage failed, in these words.
    Failed(String),
    /// The engine handed this over. Only the wait expects it.
    Received(Option<BatchExecutionResult>),
}

/// What follows a stage.
#[derive(Clone, Debug, PartialEq, Eq)]
pub enum ScheduleStep {
    /// Perform this stage next.
    Perform(ScheduleStage),
    /// The execution is over, with this result.
    Finished(BatchExecutionResult),
    /// The execution is abandoned.
    Abandoned(PCError),
}

/// Law: the stages follow one another without a gap, from the first, which
/// nothing precedes, to the wait, which nothing follows.
pub proof fn lemma_stage_order(stage: ScheduleStage)
    ensures
        match stage_after(stage) {
            Some(next) => stage_index(next) == stage_index(stage) + 1,
            None => stage == ScheduleStage::AwaitResult,
        },
        stage_index(stage) == 0 <==> stage == ScheduleStage::CreateScheduler,
        stage_index(stage) <= 7,
{
}

/// Law: the batch is added before the scheduler is finalized, and the
/// scheduler is finalized before its tasks are taken.
pub proof fn lemma_finalize_between()
    ensures
        stage_index(ScheduleStage::AddBatch) < stage_index(ScheduleStage::Finalize),
        stage_index(ScheduleStage::Finalize) < stage_index(ScheduleStage::TakeTasks),
        stage_after(ScheduleStage::AddBatch) == Some(ScheduleStage::Finalize),
{
}

/// What a stage's outcome means for the execution, as a value.
pub open spec fn schedule_step(stage: ScheduleStage, outcome: StageOutcome) -> Result<
    Option<BatchExecutionResult>,
    (ErrorKind, Seq<char>),
> {
    match outcome {
        StageOutcome::Failed(cause) => Err((ErrorKind::SchedulingError(stage), cause@)),
        StageOutcome::Completed => match stage_after(stage) {
            Some(_) => Ok(None),
            None => Err((ErrorKind::SchedulingError(stage), no_result_text())),
        },
        StageOutcome::Received(received) => if stage != ScheduleStage::AwaitResult {
            Err((ErrorKind::SchedulingError(stage), early_result_text()))
        } else {
            match received {
                Some(result) => Ok(Some(result)),
                None => Err((ErrorKind::SchedulingError(stage), no_result_text())),
            }
        },
    }
}

/// Law: an execution ends with a result only at the wait, and only with the
/// result that was received there.
pub proof fn lemma_result_only_at_wait(stage: ScheduleStage, outcome: StageOutcome)
    requires
        schedule_step(stage, outcome) matches Ok(Some(_)),
    ensures
        stage == ScheduleStage::AwaitResult,
        outcome == StageOutcome::Received(Some(schedule_step(stage, outcome)->Ok_0->Some_0)),
{
}

impl ScheduleStage {
    /// The stage that an execution starts with.
    pub fn first() -> (stage: ScheduleStage)
        ensures
            stage_index(stage) == 0,
    {
        ScheduleStage::CreateScheduler
    }

    /// The stage that follows this one, if any.
    pub fn next(&self) -> (next: Option<ScheduleStage>)
        ensures
            next == stage_after(*self),
    {
        match self {
            ScheduleStage::CreateScheduler => Some(ScheduleStage::RegisterCallback),
            ScheduleStage::RegisterCallback => Some(ScheduleStage::AddBatch),
            ScheduleStage::AddBatch => Some(ScheduleStage::Finalize),
            ScheduleStage::Finalize => Some(ScheduleStage::TakeTasks),
            ScheduleStage::TakeTasks => Some(ScheduleStage::NewNotifier),
            ScheduleStage::NewNotifier => Some(ScheduleStage::Execute),
            ScheduleStage::Execute => Some(ScheduleStage::AwaitResult),
            ScheduleStage::AwaitResult => None,
        }
    }
}

/// Decides what follows a stage from how it went.
///
/// A failure at any stage abandons the execution with a scheduling error that
/// carries the stage and the cause. A stage that is done is followed by the
/// next one. A result that is received at the wait ends the execution; an
/// empty one, or a wait that ends without one, is an error of the wait. A
/// result that is handed over at any earlier stage is an error of that stage.
pub fn schedule(stage: ScheduleStage, outcome: StageOutcome) -> (step: ScheduleStep)
    ensures
        match schedule_step(stage, outcome) {
            Ok(None) => step matches ScheduleStep::Perform(next) && Some(next) == stage_after(
                stage,
            ),
            Ok(Some(result)) => step matches ScheduleStep::Finished(r) && r == result,
            Err((kind, cause)) => step matches ScheduleStep::Abandoned(e) && e.kind == kind
                && e.message@ == cause,
        },
{
    match outcome {
        StageOutcome::Failed(cause) => ScheduleStep::Abandoned(
            PCError::new(ErrorKind::SchedulingError(stage), cause),
        ),
        StageOutcome::Completed => match stage.next() {
            Some(next) => ScheduleStep::Perform(next),
            None => ScheduleStep::Abandoned(
                PCError::from_text(
                    ErrorKind::SchedulingError(stage),
                    "Unexpected error, no result found",
                ),
            ),
        },
        StageOutcome::Received(received) => {
            if stage != ScheduleStage::AwaitResult {
                return ScheduleStep::Abandoned(
                    PCError::from_text(
                        ErrorKind::SchedulingError(stage),
                        "Unexpected result before the wait for it",
                    ),
                );
            }
            match received {
                Some(result) => ScheduleStep::Finished(result),
                None => ScheduleStep::Abandoned(
                    PCError::from_text(
                        ErrorKind::SchedulingError(stage),
                        "Unexpected error, no result found",
                    ),
                ),
            }
        },
    }
}

} // verus!

//! The queue that runs a workflow: it starts at a start step, runs each task
//! that a step hands on, and ends at the stop step.
use vstd::prelude::*;
use vstd::string::*;

use crate::error::{error_view, BGitError, BGitErrorView, BGitErrorWorkflowType, NO_EVENT, NO_RULE, NO_STEP};

verus! {

/// The kind of a workflow step.
#[derive(Debug, Clone, Copy, PartialEq, Eq, Structural)]
pub enum StepKind {
    /// The first step of a workflow.
    Start,
    /// A task in the middle of a workflow.
    Task,
    /// The end of a workflow.
    Stop,
}

/// What the queue does with the step a task handed on.
pub enum QueueDecision {
    /// Run the task.
    RunTask,
    /// The workflow is complete.
    Finished,
    /// The workflow is broken.
    Failed(BGitError),
}

/// The error of a workflow built wrongly: which rule was broken, and the
/// explanation.
pub open spec fn queue_error(what: Seq<char>, message: Seq<char>) -> BGitErrorView {
    error_view(what, message, BGitErrorWorkflowType::WorkflowQueue, NO_STEP@, NO_EVENT@, NO_RULE@)
}

/// Whether a workflow may start with this step: only a start step.
pub fn check_init_step(init: StepKind) -> (r: Result<(), BGitError>)
    ensures
        init == StepKind::Start ==> r is Ok,
        init != StepKind::Start ==> (r matches Err(e) && e@ == queue_error("init_step must be a Start Task!"@, "init_step must be a Start Task! This is a bug in the code"@)),
{
    match init {
        StepKind::Start => Ok(()),
        _ => Err(
            BGitError::new(
                "init_step must be a Start Task!",
                "init_step must be a Start Task! This is a bug in the code",
                BGitErrorWorkflowType::WorkflowQueue,
                NO_STEP,
                NO_EVENT,
                NO_RULE,
            ),
        ),
    }
}

/// What to do with the step a task handed on: run a task, finish at the
/// stop step, and refuse a second start step.
pub fn next_step_decision(next: StepKind) -> (r: QueueDecision)
    ensures
        next == StepKind::Task ==> r is RunTask,
        next == StepKind::Stop ==> r is Finished,
        next == StepKind::Start ==> (r matches QueueDecision::Failed(e) && e@ == queue_error("next_step must not be a Start Task!"@, "next_step must not be a Start Task! This is a bug in the code"@)),
{
    match next {
        StepKind::Task => QueueDecision::RunTask,
        StepKind::Stop => QueueDecision::Finished,
        StepKind::Start => QueueDecision::Failed(
            BGitError::new(
                "next_step must not be a Start Task!",
                "next_step must not be a Start Task! This is a bug in the code",
                BGitErrorWorkflowType::WorkflowQueue,
                NO_STEP,
                NO_EVENT,
                NO_RULE,
            ),
        ),
    }
}

/// The progress message while a step runs.
pub fn step_in_progress_message(step_name: &str) -> (r: String)
    ensures
        r@ == "Step '"@ + step_name@ + "' in progress..."@,
{
    let mut r = String::from_str("Step '");
    r.append(step_name);
    r.append("' in progress...");
    r
}

} // verus!

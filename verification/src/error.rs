//! The error every part of the workflow reports: what failed, why, and in
//! which workflow part, step, event and rule.
use vstd::prelude::*;
use vstd::string::*;

verus! {

/// The part of the workflow an error comes from.
#[derive(Debug, Clone, Copy, PartialEq, Eq, Structural)]
pub enum BGitErrorWorkflowType {
    AtomicEvent,
    Authentication,
    Config,
    Rules,
    WorkflowQueue,
}

/// Marks an error that belongs to no step.
pub const NO_STEP: &'static str = "";

/// Marks an error that belongs to no event.
pub const NO_EVENT: &'static str = "";

/// Marks an error that belongs to no rule.
pub const NO_RULE: &'static str = "";

/// An error of the workflow.
#[derive(Debug, Clone)]
pub struct BGitError {
    pub name: String,
    pub message: String,
    pub workflow_type: BGitErrorWorkflowType,
    pub step: String,
    pub event: String,
    pub rule: String,
}

/// The mathematical content of a [`BGitError`].
pub struct BGitErrorView {
    pub name: Seq<char>,
    pub message: Seq<char>,
    pub workflow_type: BGitErrorWorkflowType,
    pub step: Seq<char>,
    pub event: Seq<char>,
    pub rule: Seq<char>,
}

impl View for BGitError {
    type V = BGitErrorView;

    open spec fn view(&self) -> BGitErrorView {
        BGitErrorView {
            name: self.name@,
            message: self.message@,
            workflow_type: self.workflow_type,
            step: self.step@,
            event: self.event@,
            rule: self.rule@,
        }
    }
}

pub open spec fn error_view(
    name: Seq<char>,
    message: Seq<char>,
    workflow_type: BGitErrorWorkflowType,
    step: Seq<char>,
    event: Seq<char>,
    rule: Seq<char>,
) -> BGitErrorView {
    BGitErrorView { name, message, workflow_type, step, event, rule }
}

impl BGitError {
    /// An error named `name`, explained by `message`, raised in `workflow_type`
    /// at the given step, event and rule.
    pub fn new(
        name: &str,
        message: &str,
        workflow_type: BGitErrorWorkflowType,
        step: &str,
        event: &str,
        rule: &str,
    ) -> (e: BGitError)
        ensures
            e@ == error_view(name@, message@, workflow_type, step@, event@, rule@),
    {
        BGitError {
            name: String::from_str(name),
            message: String::from_str(message),
            workflow_type,
            step: String::from_str(step),
            event: String::from_str(event),
            rule: String::from_str(rule),
        }
    }
}

pub open spec fn result_error_view<T>(r: Result<T, BGitError>) -> Result<T, BGitErrorView> {
    match r {
        Ok(t) => Ok(t),
        Err(e) => Err(e@),
    }
}

} // verus!

//! The atomic Git operations a workflow is made of. Each holds what the
//! operation needs and decides, from what was read of the repository, what
//! the operation does and which error it reports.
use vstd::prelude::*;

use crate::error::{error_view, BGitError, BGitErrorView, BGitErrorWorkflowType, NO_RULE, NO_STEP};

pub mod git_add;
pub mod git_branch;
pub mod git_clone;
pub mod git_commit;
pub mod git_config;
pub mod git_log;
pub mod git_pull;
pub mod git_push;
pub mod git_restore;
pub mod git_stash;
pub mod git_status;

verus! {

/// The error an event reports: named `BGitError`, raised by the event.
pub open spec fn event_error_view(event: Seq<char>, message: Seq<char>) -> BGitErrorView {
    error_view("BGitError"@, message, BGitErrorWorkflowType::AtomicEvent, NO_STEP@, event, NO_RULE@)
}

/// The error the event `event` reports with `message`.
pub fn event_error(event: &str, message: &str) -> (e: BGitError)
    ensures
        e@ == event_error_view(event@, message@),
{
    BGitError::new("BGitError", message, BGitErrorWorkflowType::AtomicEvent, NO_STEP, event, NO_RULE)
}

/// What Git reports of one path: the working-tree and index changes.
#[derive(Debug, Clone, Copy, PartialEq, Eq, Structural)]
pub struct StatusFlags {
    pub index_new: bool,
    pub index_modified: bool,
    pub index_deleted: bool,
    pub index_renamed: bool,
    pub index_typechange: bool,
    pub wt_new: bool,
    pub wt_modified: bool,
    pub wt_deleted: bool,
    pub wt_typechange: bool,
    pub wt_renamed: bool,
}

} // verus!

//! Flags of each workflow, by workflow.
pub mod default;

//! Flags of the default workflow, by step.
pub mod is_sole_contributor;

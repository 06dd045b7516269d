//! Names of the workflow step flags, to use instead of string literals when
//! reading a step's flags.
pub mod workflows;

//! Flags of the step that checks whether the current author is the sole
//! contributor.
use vstd::prelude::*;

verus! {

/// Authors whose commits do not count against being the sole contributor.
pub const OVERRIDE_CHECK_FOR_AUTHORS: &'static str = "overrideCheckForAuthors";

} // verus!

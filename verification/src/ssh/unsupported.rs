//! Platforms with no SSH agent support.
use vstd::prelude::*;

use crate::error::{error_view, BGitError, BGitErrorWorkflowType, NO_EVENT, NO_RULE, NO_STEP};

verus! {

/// An agent cannot be made ready here: always the authentication error
/// saying so.
pub fn ensure_agent_ready() -> (r: Result<(), BGitError>)
    ensures
        r matches Err(e) && e@ == error_view(
            "SSH agent unsupported"@,
            "SSH agent not supported on this platform"@,
            BGitErrorWorkflowType::Authentication,
            NO_STEP@,
            NO_EVENT@,
            NO_RULE@,
        ),
{
    Err(
        BGitError::new(
            "SSH agent unsupported",
            "SSH agent not supported on this platform",
            BGitErrorWorkflowType::Authentication,
            NO_STEP,
            NO_EVENT,
            NO_RULE,
        ),
    )
}

} // verus!

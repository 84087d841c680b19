//! Choosing the radio to scan with.

use crate::error::PipelineError;
use vstd::prelude::*;

verus! {

/// Picks the radio among those the host lists: always the first, since the
/// hosts this runs on have one. `listed` is how many radios the host
/// reported, or `None` if it could not list them.
///
/// Fails with `NoAdapterFound` exactly when there is no radio to pick.
pub fn select_adapter(listed: Option<usize>) -> (chosen: Result<usize, PipelineError>)
    ensures
        chosen == adapter_choice(listed),
{
    match listed {
        Some(count) if count > 0 => Ok(0),
        _ => Err(PipelineError::NoAdapterFound),
    }
}

/// The position of the radio to use, given how many the host listed.
pub open spec fn adapter_choice(listed: Option<usize>) -> Result<usize, PipelineError> {
    if listed matches Some(count) && count > 0 {
        Ok(0)
    } else {
        Err(PipelineError::NoAdapterFound)
    }
}

} // verus!

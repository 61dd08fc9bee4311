//! Rules of the job result endpoint.
use vstd::prelude::*;

use crate::errors::error::AppError;
use crate::models::job::JobState;

verus! {

/// The recorded state of a job, or a not-found error naming the job.
pub fn job_state_or_not_found(job_id: String, state: Option<JobState>) -> (res: Result<
    JobState,
    AppError,
>)
    ensures
        match state {
            Some(s) => res == Ok::<JobState, AppError>(s),
            None => res matches Err(e) && e is NotFound && e->NotFound_0 == job_id,
        },
{
    match state {
        Some(s) => Ok(s),
        None => Err(AppError::NotFound(job_id)),
    }
}

} // verus!

//! Request and answer bodies of the log submission endpoint.
use vstd::prelude::*;

use crate::models::job::JobStatus;

verus! {

/// Logs submitted for analysis.
#[derive(Debug, Clone, PartialEq, Eq)]
pub struct LogRequest {
    pub logs: String,
}

/// The answer to a submission: the new job's id and its status.
#[derive(Debug, Clone, PartialEq, Eq)]
pub struct LogResponse {
    pub job_id: String,
    pub status: JobStatus,
}

impl LogResponse {
    /// The answer for a job that was just queued.
    pub fn queued(job_id: String) -> (res: Self)
        ensures
            res.job_id == job_id,
            res.status == JobStatus::Queued,
    {
        LogResponse { job_id, status: JobStatus::Queued }
    }
}

} // verus!

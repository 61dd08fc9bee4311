//! Jobs, their lifecycle statuses, and the state recorded for each job.
use vstd::prelude::*;

use crate::text::{concat3, owned, str_eq};

verus! {

/// A unit of work: logs to analyse on behalf of a session.
#[derive(Debug, Clone, PartialEq, Eq)]
pub struct Job {
    pub id: String,
    pub session_id: String,
    pub retry: u32,
    pub logs: String,
}

/// The value of a job, with its strings as character sequences.
pub struct JobView {
    pub id: Seq<char>,
    pub session_id: Seq<char>,
    pub retry: u32,
    pub logs: Seq<char>,
}

impl View for Job {
    type V = JobView;

    open spec fn view(&self) -> JobView {
        JobView { id: self.id@, session_id: self.session_id@, retry: self.retry, logs: self.logs@ }
    }
}

impl Job {
    /// A newly submitted job: no attempt has been retried yet.
    pub fn submitted(id: String, session_id: String, logs: String) -> (res: Self)
        ensures
            res@ == (JobView { id: id@, session_id: session_id@, retry: 0, logs: logs@ }),
    {
        Job { id, session_id, retry: 0, logs }
    }

    /// The same job for its next attempt.
    pub fn next_retry(&self) -> (res: Self)
        requires
            self.retry < u32::MAX,
        ensures
            res@ == (JobView { retry: (self.retry + 1) as u32, ..self@ }),
    {
        Job {
            id: self.id.clone(),
            session_id: self.session_id.clone(),
            retry: self.retry + 1,
            logs: self.logs.clone(),
        }
    }

    /// A copy of the job.
    pub fn duplicate(&self) -> (res: Self)
        ensures
            res@ == self@,
    {
        Job {
            id: self.id.clone(),
            session_id: self.session_id.clone(),
            retry: self.retry,
            logs: self.logs.clone(),
        }
    }
}

/// Where a job stands in its lifecycle.
#[derive(Debug, Clone, Copy, PartialEq, Eq, Structural)]
pub enum JobStatus {
    Queued,
    Running,
    Completed,
    DeadLettered,
}

/// The text under which a status is stored and shown.
pub open spec fn status_text(s: JobStatus) -> Seq<char> {
    match s {
        JobStatus::Queued => "queued"@,
        JobStatus::Running => "running"@,
        JobStatus::Completed => "completed"@,
        JobStatus::DeadLettered => "dead_lettered"@,
    }
}

/// The status a stored text names, if any.
pub open spec fn status_from_text(t: Seq<char>) -> Option<JobStatus> {
    if t == "queued"@ {
        Some(JobStatus::Queued)
    } else if t == "running"@ {
        Some(JobStatus::Running)
    } else if t == "completed"@ {
        Some(JobStatus::Completed)
    } else if t == "dead_lettered"@ {
        Some(JobStatus::DeadLettered)
    } else {
        None
    }
}

/// The message for a stored status text that names no status.
pub open spec fn unknown_status_message(t: Seq<char>) -> Seq<char> {
    "unknown job status '"@ + t + "'"@
}

/// Reading back the text of a status gives the status.
pub proof fn lemma_status_text_round_trip(s: JobStatus)
    ensures
        status_from_text(status_text(s)) == Some(s),
{
    reveal_strlit("queued");
    reveal_strlit("running");
    reveal_strlit("completed");
    reveal_strlit("dead_lettered");
    assert("queued"@.len() == 6);
    assert("running"@.len() == 7);
    assert("completed"@.len() == 9);
    assert("dead_lettered"@.len() == 13);
}

impl JobStatus {
    pub open spec fn spec_is_terminal(self) -> bool {
        self == JobStatus::Completed || self == JobStatus::DeadLettered
    }

    pub fn as_str(&self) -> (res: &'static str)
        ensures
            res@ == status_text(*self),
    {
        match self {
            JobStatus::Queued => "queued",
            JobStatus::Running => "running",
            JobStatus::Completed => "completed",
            JobStatus::DeadLettered => "dead_lettered",
        }
    }

    /// Whether no further work happens on a job in this status.
    pub fn is_terminal(&self) -> (res: bool)
        ensures
            res == self.spec_is_terminal(),
    {
        match self {
            JobStatus::Completed | JobStatus::DeadLettered => true,
            _ => false,
        }
    }

    /// The status that a stored text names, or the message for an unknown one.
    pub fn try_from_str(value: &str) -> (res: Result<JobStatus, String>)
        ensures
            match res {
                Ok(s) => status_from_text(value@) == Some(s),
                Err(m) => status_from_text(value@) is None && m@ == unknown_status_message(
                    value@,
                ),
            },
    {
        if str_eq(value, "queued") {
            Ok(JobStatus::Queued)
        } else if str_eq(value, "running") {
            Ok(JobStatus::Running)
        } else if str_eq(value, "completed") {
            Ok(JobStatus::Completed)
        } else if str_eq(value, "dead_lettered") {
            Ok(JobStatus::DeadLettered)
        } else {
            Err(concat3("unknown job status '", value, "'"))
        }
    }
}

/// What is recorded about a job: its status, attempt, and outcome.
#[derive(Debug, Clone, PartialEq, Eq)]
pub struct JobState {
    pub job_id: String,
    pub status: JobStatus,
    pub retry: u32,
    pub result: Option<String>,
    pub error: Option<String>,
    pub updated_at_ms: u64,
}

/// The value of a job state, with its strings as character sequences.
pub struct JobStateView {
    pub job_id: Seq<char>,
    pub status: JobStatus,
    pub retry: u32,
    pub result: Option<Seq<char>>,
    pub error: Option<Seq<char>>,
    pub updated_at_ms: u64,
}

pub open spec fn opt_view(o: Option<String>) -> Option<Seq<char>> {
    match o {
        Some(s) => Some(s@),
        None => None,
    }
}

impl View for JobState {
    type V = JobStateView;

    open spec fn view(&self) -> JobStateView {
        JobStateView {
            job_id: self.job_id@,
            status: self.status,
            retry: self.retry,
            result: opt_view(self.result),
            error: opt_view(self.error),
            updated_at_ms: self.updated_at_ms,
        }
    }
}

/// A copy of a string option.
pub fn clone_opt(o: &Option<String>) -> (res: Option<String>)
    ensures
        opt_view(res) == opt_view(*o),
{
    match o {
        Some(s) => Some(s.clone()),
        None => None,
    }
}

impl JobState {
    /// A copy of the state.
    pub fn duplicate(&self) -> (res: Self)
        ensures
            res@ == self@,
    {
        JobState {
            job_id: self.job_id.clone(),
            status: self.status,
            retry: self.retry,
            result: clone_opt(&self.result),
            error: clone_opt(&self.error),
            updated_at_ms: self.updated_at_ms,
        }
    }
}

} // verus!

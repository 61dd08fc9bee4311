use ai_debug_agent::models::job::{Job, JobStatus};
use ai_debug_agent::models::log::LogResponse;

#[test]
fn next_retry_bumps_only_the_attempt() {
    let job = Job {
        id: "job-1".into(),
        session_id: "s".into(),
        retry: 2,
        logs: "error: database connection failed".into(),
    };
    let next = job.next_retry();
    assert_eq!(next, Job { retry: 3, ..job.clone() });
    assert_eq!(job.duplicate(), job);
}

#[test]
fn submitted_jobs_start_at_attempt_zero() {
    let job = Job::submitted("id".into(), "sess".into(), "logs".into());
    assert_eq!(job.retry, 0);
    assert_eq!(job.id, "id");
    assert_eq!(job.session_id, "sess");
    assert_eq!(job.logs, "logs");
    let resp = LogResponse::queued("id".into());
    assert_eq!(resp.status, JobStatus::Queued);
    assert_eq!(resp.job_id, "id");
}

#[test]
fn status_texts_round_trip() {
    for s in [JobStatus::Queued, JobStatus::Running, JobStatus::Completed, JobStatus::DeadLettered] {
        assert_eq!(JobStatus::try_from_str(s.as_str()), Ok(s));
    }
    assert_eq!(JobStatus::DeadLettered.as_str(), "dead_lettered");
    assert_eq!(JobStatus::try_from_str("Queued"), Err("unknown job status 'Queued'".to_string()));
}

#[test]
fn terminal_statuses() {
    assert!(JobStatus::Completed.is_terminal());
    assert!(JobStatus::DeadLettered.is_terminal());
    assert!(!JobStatus::Queued.is_terminal());
    assert!(!JobStatus::Running.is_terminal());
}

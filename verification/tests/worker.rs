use std::time::Duration;

use ai_debug_agent::errors::error::AppError;
use ai_debug_agent::workers::worker::{
    backoff_delay_ms, failure_action, process_step, retry_backoff, FailureAction, JobAction,
    JobEvent, JobStep,
};

#[test]
fn retry_backoff_increases_with_retry_count() {
    let first = retry_backoff(0);
    let second = retry_backoff(1);

    assert!(second >= first);
    assert!(first >= Duration::from_millis(250));
}

#[test]
fn backoff_doubles_up_to_six_times_plus_clock_jitter() {
    assert_eq!(backoff_delay_ms(0, 0), 250);
    assert_eq!(backoff_delay_ms(1, 0), 500);
    assert_eq!(backoff_delay_ms(3, 1000), 2000);
    assert_eq!(backoff_delay_ms(6, 249), 16249);
    assert_eq!(backoff_delay_ms(40, 250), 16000);
    assert_eq!(backoff_delay_ms(u32::MAX, u64::MAX), 16000 + (u64::MAX % 250));
}

#[test]
fn retry_backoff_stays_in_range() {
    for retry in [0u32, 2, 5, 6, 9] {
        let d = retry_backoff(retry);
        let base = 250u64 * (1u64 << retry.min(6));
        assert!(d >= Duration::from_millis(base));
        assert!(d < Duration::from_millis(base + 250));
    }
}

#[test]
fn failure_actions() {
    let transient = AppError::Http("timeout".into());
    assert_eq!(failure_action(&transient, 0, 3), FailureAction::Retry);
    assert_eq!(failure_action(&transient, 2, 3), FailureAction::Retry);
    assert_eq!(failure_action(&transient, 3, 3), FailureAction::DeadLetter);
    let permanent = AppError::AiResponse("empty".into());
    assert_eq!(failure_action(&permanent, 0, 3), FailureAction::DeadLetter);
    let throttled = AppError::AiStatus { status: 429, body: String::new() };
    assert_eq!(failure_action(&throttled, 0, 1), FailureAction::Retry);
    assert_eq!(failure_action(&throttled, 0, 0), FailureAction::DeadLetter);
}

#[test]
fn successful_processing_runs_every_step() {
    let (s, a) = process_step(JobStep::Begin, JobEvent::Begin, 0, 3);
    assert_eq!((s, a), (JobStep::AwaitStart, JobAction::StartJob));
    let (s, a) = process_step(s, JobEvent::Started(true), 0, 3);
    assert_eq!((s, a), (JobStep::AwaitKey, JobAction::LoadSessionKey));
    let (s, a) = process_step(s, JobEvent::KeyLoaded(Ok("sk".into())), 0, 3);
    assert_eq!((s, a), (JobStep::AwaitAnalysis, JobAction::AnalyzeLogs("sk".into())));
    let (s, a) = process_step(s, JobEvent::Analyzed(Ok("fix".into())), 0, 3);
    assert_eq!((s, a), (JobStep::Done, JobAction::Complete("fix".into())));
}

#[test]
fn skipped_and_failed_processing() {
    assert_eq!(
        process_step(JobStep::AwaitStart, JobEvent::Started(false), 0, 3),
        (JobStep::Done, JobAction::Skip)
    );
    assert_eq!(
        process_step(
            JobStep::AwaitKey,
            JobEvent::KeyLoaded(Err(AppError::Unauthorized("session is invalid or expired".into()))),
            0,
            3
        ),
        (
            JobStep::Done,
            JobAction::DeadLetter("Unauthorized: session is invalid or expired".into())
        )
    );
    assert_eq!(
        process_step(
            JobStep::AwaitAnalysis,
            JobEvent::Analyzed(Err(AppError::AiStatus { status: 503, body: "busy".into() })),
            1,
            3
        ),
        (JobStep::Done, JobAction::Retry("AI provider returned HTTP 503: busy".into()))
    );
    assert_eq!(
        process_step(JobStep::AwaitKey, JobEvent::Begin, 0, 3),
        (JobStep::Done, JobAction::Stop)
    );
    assert_eq!(
        process_step(JobStep::Done, JobEvent::Started(true), 0, 3),
        (JobStep::Done, JobAction::Stop)
    );
}

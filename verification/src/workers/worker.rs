//! The decisions a worker makes while processing a delivered job: the
//! order of its steps, what a failure leads to (another attempt or the
//! dead-letter stream), and how long to wait before another attempt.
use std::time::Duration;

use vstd::prelude::*;

use crate::errors::error::AppError;
use crate::queue::job_queue::now_ms;

verus! {

/// `2^k`.
pub open spec fn doubling(k: nat) -> nat
    decreases k,
{
    if k == 0 {
        1
    } else {
        2 * doubling((k - 1) as nat)
    }
}

/// The fixed part of the wait before another attempt: 250 ms, doubled for
/// each earlier attempt, up to six doublings.
pub open spec fn backoff_base_ms(retry: u32) -> nat {
    250 * doubling(if retry < 6 {
        retry as nat
    } else {
        6
    })
}

/// The wait before another attempt: the base for the attempt number plus
/// a jitter below 250 ms taken from the clock reading `clock_ms`.
pub open spec fn backoff_ms(retry: u32, clock_ms: u64) -> nat {
    backoff_base_ms(retry) + (clock_ms % 250) as nat
}

/// The wait before another attempt (see `backoff_ms`).
pub fn backoff_delay_ms(retry: u32, clock_ms: u64) -> (res: u64)
    ensures
        res == backoff_ms(retry, clock_ms),
{
    let factor: u64 = if retry == 0 {
        1
    } else if retry == 1 {
        2
    } else if retry == 2 {
        4
    } else if retry == 3 {
        8
    } else if retry == 4 {
        16
    } else if retry == 5 {
        32
    } else {
        64
    };
    proof {
        reveal_with_fuel(doubling, 7);
    }
    250 * factor + clock_ms % 250
}

/// `std::time::Duration::from_millis`, named by its argument.
pub uninterp spec fn duration_of_millis(ms: u64) -> Duration;

/// `std::time::Duration::from_millis`. The contract claims only that the
/// duration is the one std builds from that many milliseconds.
#[verifier::external_body]
fn duration_from_millis(ms: u64) -> (res: Duration)
    ensures
        res == duration_of_millis(ms),
{
    Duration::from_millis(ms)
}

/// The wait before attempt `retry + 1`, with jitter from the system clock.
pub fn retry_backoff(retry: u32) -> (res: Duration)
    ensures
        exists|clock_ms: u64|
            res == duration_of_millis(#[trigger] backoff_ms(retry, clock_ms) as u64),
{
    let ms = backoff_delay_ms(retry, now_ms());
    duration_from_millis(ms)
}

/// Every wait lies between 250 ms and 16.25 s.
pub proof fn lemma_backoff_bounds(retry: u32, clock_ms: u64)
    ensures
        250 <= backoff_base_ms(retry) + clock_ms % 250 < 16250,
{
    reveal_with_fuel(doubling, 7);
}

/// Later attempts never wait less than earlier ones, whatever the jitter,
/// until the base stops growing at the seventh attempt.
pub proof fn lemma_backoff_grows(r1: u32, r2: u32, jitter1: nat, jitter2: nat)
    requires
        r1 < r2,
        r1 < 6,
        jitter1 < 250,
        jitter2 < 250,
    ensures
        backoff_base_ms(r1) + jitter1 <= backoff_base_ms(r2) + jitter2,
{
    reveal_with_fuel(doubling, 7);
}

/// What happens to a job whose processing failed.
#[derive(Debug, Clone, Copy, PartialEq, Eq, Structural)]
pub enum FailureAction {
    /// Put the job back on the stream for another attempt.
    Retry,
    /// Move the job to the dead-letter stream.
    DeadLetter,
}

/// A failure leads to another attempt when it may pass and attempts are
/// left; otherwise the job is dead-lettered.
pub open spec fn failure_action_spec(error: AppError, retry: u32, max_retries: u32) -> FailureAction {
    if error.spec_is_retryable() && retry < max_retries {
        FailureAction::Retry
    } else {
        FailureAction::DeadLetter
    }
}

pub fn failure_action(error: &AppError, retry: u32, max_retries: u32) -> (res: FailureAction)
    ensures
        res == failure_action_spec(*error, retry, max_retries),
{
    if error.is_retryable() && retry < max_retries {
        FailureAction::Retry
    } else {
        FailureAction::DeadLetter
    }
}

/// Where the processing of one delivered job stands.
#[derive(Debug, Clone, Copy, PartialEq, Eq, Structural)]
pub enum JobStep {
    /// Nothing done yet.
    Begin,
    /// Waiting to learn whether the job is to run.
    AwaitStart,
    /// Waiting for the session's API key.
    AwaitKey,
    /// Waiting for the AI provider's analysis.
    AwaitAnalysis,
    /// Finished.
    Done,
}

/// What the worker learned from the last action.
#[derive(Debug)]
pub enum JobEvent {
    /// Processing begins.
    Begin,
    /// Whether the job was recorded as running (`false`: skipped).
    Started(bool),
    /// The session's API key, or why it could not be had.
    KeyLoaded(Result<String, AppError>),
    /// The analysis, or why it could not be had.
    Analyzed(Result<String, AppError>),
}

/// What the worker does next.
#[derive(Debug, Clone, PartialEq, Eq)]
pub enum JobAction {
    /// Decide whether the job runs, and record it as running if it does.
    StartJob,
    /// Load and unseal the session's API key.
    LoadSessionKey,
    /// Ask the AI provider to analyse the logs with this key.
    AnalyzeLogs(String),
    /// Record the job as completed with this result.
    Complete(String),
    /// Put the job back for another attempt, recording this error.
    Retry(String),
    /// Move the job to the dead-letter stream with this error.
    DeadLetter(String),
    /// Stop: the job is not to run here.
    Skip,
    /// Stop: the event does not belong to the current step.
    Stop,
}

/// The value of an action, with its text as a character sequence.
pub enum JobActionView {
    StartJob,
    LoadSessionKey,
    AnalyzeLogs(Seq<char>),
    Complete(Seq<char>),
    Retry(Seq<char>),
    DeadLetter(Seq<char>),
    Skip,
    Stop,
}

impl View for JobAction {
    type V = JobActionView;

    open spec fn view(&self) -> JobActionView {
        match self {
            JobAction::StartJob => JobActionView::StartJob,
            JobAction::LoadSessionKey => JobActionView::LoadSessionKey,
            JobAction::AnalyzeLogs(k) => JobActionView::AnalyzeLogs(k@),
            JobAction::Complete(r) => JobActionView::Complete(r@),
            JobAction::Retry(m) => JobActionView::Retry(m@),
            JobAction::DeadLetter(m) => JobActionView::DeadLetter(m@),
            JobAction::Skip => JobActionView::Skip,
            JobAction::Stop => JobActionView::Stop,
        }
    }
}

/// The action for a failure, carrying the error's text.
pub open spec fn on_failure(error: AppError, retry: u32, max_retries: u32) -> JobActionView {
    match failure_action_spec(error, retry, max_retries) {
        FailureAction::Retry => JobActionView::Retry(error.spec_message()),
        FailureAction::DeadLetter => JobActionView::DeadLetter(error.spec_message()),
    }
}

/// The next step and action, given the current step and what was learned:
/// start, then load the session key, then analyse, then complete; a failed
/// key load or analysis ends in another attempt or the dead-letter stream.
pub open spec fn process_step_spec(
    step: JobStep,
    event: JobEvent,
    retry: u32,
    max_retries: u32,
) -> (JobStep, JobActionView) {
    match (step, event) {
        (JobStep::Begin, JobEvent::Begin) => (JobStep::AwaitStart, JobActionView::StartJob),
        (JobStep::AwaitStart, JobEvent::Started(run)) => if run {
            (JobStep::AwaitKey, JobActionView::LoadSessionKey)
        } else {
            (JobStep::Done, JobActionView::Skip)
        },
        (JobStep::AwaitKey, JobEvent::KeyLoaded(loaded)) => match loaded {
            Ok(key) => (JobStep::AwaitAnalysis, JobActionView::AnalyzeLogs(key@)),
            Err(e) => (JobStep::Done, on_failure(e, retry, max_retries)),
        },
        (JobStep::AwaitAnalysis, JobEvent::Analyzed(analysis)) => match analysis {
            Ok(result) => (JobStep::Done, JobActionView::Complete(result@)),
            Err(e) => (JobStep::Done, on_failure(e, retry, max_retries)),
        },
        _ => (JobStep::Done, JobActionView::Stop),
    }
}

fn failure_step(error: AppError, retry: u32, max_retries: u32) -> (res: (JobStep, JobAction))
    ensures
        res.0 == JobStep::Done,
        res.1@ == on_failure(error, retry, max_retries),
{
    let text = error.message();
    match failure_action(&error, retry, max_retries) {
        FailureAction::Retry => (JobStep::Done, JobAction::Retry(text)),
        FailureAction::DeadLetter => (JobStep::Done, JobAction::DeadLetter(text)),
    }
}

/// One step of processing a delivered job whose attempt number is `retry`.
pub fn process_step(step: JobStep, event: JobEvent, retry: u32, max_retries: u32) -> (res: (
    JobStep,
    JobAction,
))
    ensures
        (res.0, res.1@) == process_step_spec(step, event, retry, max_retries),
{
    match (step, event) {
        (JobStep::Begin, JobEvent::Begin) => (JobStep::AwaitStart, JobAction::StartJob),
        (JobStep::AwaitStart, JobEvent::Started(run)) => {
            if run {
                (JobStep::AwaitKey, JobAction::LoadSessionKey)
            } else {
                (JobStep::Done, JobAction::Skip)
            }
        },
        (JobStep::AwaitKey, JobEvent::KeyLoaded(loaded)) => match loaded {
            Ok(key) => (JobStep::AwaitAnalysis, JobAction::AnalyzeLogs(key)),
            Err(e) => failure_step(e, retry, max_retries),
        },
        (JobStep::AwaitAnalysis, JobEvent::Analyzed(analysis)) => match analysis {
            Ok(result) => (JobStep::Done, JobAction::Complete(result)),
            Err(e) => failure_step(e, retry, max_retries),
        },
        _ => (JobStep::Done, JobAction::Stop),
    }
}

/// How many steps at most remain from a step.
pub open spec fn steps_left(step: JobStep) -> nat {
    match step {
        JobStep::Begin => 4,
        JobStep::AwaitStart => 3,
        JobStep::AwaitKey => 2,
        JobStep::AwaitAnalysis => 1,
        JobStep::Done => 0,
    }
}

/// Every step moves closer to the end, so processing a job ends after at
/// most four steps, whatever the events.
pub proof fn lemma_processing_ends(step: JobStep, event: JobEvent, retry: u32, max_retries: u32)
    requires
        step != JobStep::Done,
    ensures
        steps_left(process_step_spec(step, event, retry, max_retries).0) < steps_left(step),
{
}

/// Processing stops exactly when it reaches the end, and an action that
/// writes the job's outcome (complete, retry, dead-letter) ends it.
pub proof fn lemma_outcome_ends_processing(
    step: JobStep,
    event: JobEvent,
    retry: u32,
    max_retries: u32,
)
    ensures
        ({
            let (next, action) = process_step_spec(step, event, retry, max_retries);
            (action is Complete || action is Retry || action is DeadLetter || action is Skip
                || action is Stop) <==> next == JobStep::Done
        }),
{
}

/// A job is put back only while attempts remain, so no job is attempted
/// more than `max_retries + 1` times; and only for failures that may pass.
pub proof fn lemma_retry_within_budget(
    step: JobStep,
    event: JobEvent,
    retry: u32,
    max_retries: u32,
)
    ensures
        process_step_spec(step, event, retry, max_retries).1 is Retry ==> retry < max_retries && (
        match event {
            JobEvent::KeyLoaded(Err(e)) => e.spec_is_retryable(),
            JobEvent::Analyzed(Err(e)) => e.spec_is_retryable(),
            _ => false,
        }),
{
}

/// A failed key load and a failed analysis follow the same rule: the job
/// is put back, with the error's text, when the error may pass and attempts
/// remain, and is dead-lettered with that text otherwise; either way
/// processing ends.
pub proof fn lemma_failures_follow_retry_rule(error: AppError, retry: u32, max_retries: u32)
    ensures
        ({
            let expected = if error.spec_is_retryable() && retry < max_retries {
                JobActionView::Retry(error.spec_message())
            } else {
                JobActionView::DeadLetter(error.spec_message())
            };
            &&& process_step_spec(
                JobStep::AwaitKey,
                JobEvent::KeyLoaded(Err(error)),
                retry,
                max_retries,
            ) == (JobStep::Done, expected)
            &&& process_step_spec(
                JobStep::AwaitAnalysis,
                JobEvent::Analyzed(Err(error)),
                retry,
                max_retries,
            ) == (JobStep::Done, expected)
        }),
{
}

/// The successful path: begin, then start, then load the key, then analyse
/// with that key, then complete with the analysis; a job that is not to run
/// is skipped.
pub proof fn lemma_success_path(run: bool, key: String, analysis: String, retry: u32, max_retries: u32)
    ensures
        process_step_spec(JobStep::Begin, JobEvent::Begin, retry, max_retries) == (
            JobStep::AwaitStart,
            JobActionView::StartJob,
        ),
        process_step_spec(JobStep::AwaitStart, JobEvent::Started(run), retry, max_retries) == if run {
            (JobStep::AwaitKey, JobActionView::LoadSessionKey)
        } else {
            (JobStep::Done, JobActionView::Skip)
        },
        process_step_spec(JobStep::AwaitKey, JobEvent::KeyLoaded(Ok(key)), retry, max_retries) == (
            JobStep::AwaitAnalysis,
            JobActionView::AnalyzeLogs(key@),
        ),
        process_step_spec(
            JobStep::AwaitAnalysis,
            JobEvent::Analyzed(Ok(analysis)),
            retry,
            max_retries,
        ) == (JobStep::Done, JobActionView::Complete(analysis@)),
{
}

/// A failure that cannot pass by trying again sends the job to the
/// dead-letter stream, with the failure's text.
pub proof fn lemma_permanent_failures_dead_letter(error: AppError, retry: u32, max_retries: u32)
    requires
        !error.spec_is_retryable(),
    ensures
        on_failure(error, retry, max_retries) == JobActionView::DeadLetter(error.spec_message()),
{
}

/// A job is completed only with the analysis the AI provider returned,
/// after its session key was loaded.
pub proof fn lemma_complete_only_after_analysis(
    step: JobStep,
    event: JobEvent,
    retry: u32,
    max_retries: u32,
)
    ensures
        process_step_spec(step, event, retry, max_retries).1 is Complete ==> step
            == JobStep::AwaitAnalysis && (event matches JobEvent::Analyzed(Ok(r))
            && process_step_spec(step, event, retry, max_retries).1 == JobActionView::Complete(
            r@,
        )),
{
}

} // verus!

//! The rules of the job queue: the keys and stream entries it writes, the
//! job state records it stores and reads back, when a delivered entry is
//! run or skipped, which pending entry is reclaimed, and how session API
//! keys are sealed for storage.
use std::time::{Duration, SystemTime, UNIX_EPOCH};

use aes_gcm::{
    aead::{rand_core::RngCore, Aead, KeyInit, OsRng},
    Aes256Gcm, Key, Nonce,
};
use base64::{engine::general_purpose::STANDARD_NO_PAD, Engine as _};
use sha2::{Digest, Sha256};
use vstd::prelude::*;
use vstd::string::*;
use vstd::utf8::*;

use crate::config::helper::Config;
use crate::errors::error::AppError;
use crate::models::job::{
    opt_view, status_from_text, status_text, unknown_status_message, Job, JobState,
    JobStateView, JobStatus, JobView,
};
use crate::text::{
    concat2, concat3, contains_seq, contains_str, decimal, decimal_string, int_parse_error_text, lookup, lookup_value,
    owned, pairs_view, parse_unsigned, parse_unsigned_str,
};

verus! {

// ---------------------------------------------------------------------
// Entries and settings
// ---------------------------------------------------------------------

/// A job read from the job stream, with the id of the stream entry that
/// delivered it and whether it was reclaimed from a stalled consumer.
#[derive(Debug, Clone, Eq, PartialEq)]
pub struct StreamJob {
    pub stream_id: String,
    pub job: Job,
    pub claimed_stale: bool,
}

/// The value of a delivered job.
pub struct StreamJobView {
    pub stream_id: Seq<char>,
    pub job: JobView,
    pub claimed_stale: bool,
}

impl View for StreamJob {
    type V = StreamJobView;

    open spec fn view(&self) -> StreamJobView {
        StreamJobView { stream_id: self.stream_id@, job: self.job@, claimed_stale: self.claimed_stale }
    }
}

/// An entry of a stream: its id and its string-valued fields, in order.
#[derive(Debug, Clone, Eq, PartialEq)]
pub struct StreamEntry {
    pub id: String,
    pub fields: Vec<(String, String)>,
}

/// An entry awaiting acknowledgement, with the time since it was last delivered.
#[derive(Debug, Clone, Eq, PartialEq)]
pub struct PendingEntry {
    pub id: String,
    pub last_delivered_ms: usize,
}

/// The names and timings that the queue works with.
#[derive(Debug, Clone, Eq, PartialEq)]
pub struct QueueSettings {
    pub job_stream: String,
    pub dlq_stream: String,
    pub consumer_group: String,
    pub read_block_ms: usize,
    pub claim_idle_ms: usize,
    pub job_status_ttl_secs: usize,
    pub session_ttl_secs: usize,
}

impl QueueSettings {
    /// The queue settings that a configuration names.
    pub fn from_config(config: &Config) -> (res: Self)
        ensures
            res.job_stream@ == config.job_stream@,
            res.dlq_stream@ == config.dlq_stream@,
            res.consumer_group@ == config.consumer_group@,
            res.read_block_ms == config.read_block_ms,
            res.claim_idle_ms == config.claim_idle_ms,
            res.job_status_ttl_secs == config.job_status_ttl_secs,
            res.session_ttl_secs == config.session_ttl_secs,
    {
        QueueSettings {
            job_stream: config.job_stream.clone(),
            dlq_stream: config.dlq_stream.clone(),
            consumer_group: config.consumer_group.clone(),
            read_block_ms: config.read_block_ms,
            claim_idle_ms: config.claim_idle_ms,
            job_status_ttl_secs: config.job_status_ttl_secs,
            session_ttl_secs: config.session_ttl_secs,
        }
    }
}

/// The key of the hash that records a job's state.
pub fn job_key(job_id: &str) -> (res: String)
    ensures
        res@ == "job:"@ + job_id@,
{
    concat2("job:", job_id)
}

/// The key of the hash that holds a session.
pub fn session_key(session_id: &str) -> (res: String)
    ensures
        res@ == "session:"@ + session_id@,
{
    concat2("session:", session_id)
}

fn pair(name: &str, value: &str) -> (res: (String, String))
    ensures
        res.0@ == name@,
        res.1@ == value@,
{
    (owned(name), owned(value))
}

/// The fields of a job stream entry: the job id and its serialized payload.
pub fn job_entry_fields(job_id: &str, payload: &str) -> (res: Vec<(String, String)>)
    ensures
        pairs_view(res@) == seq![("job_id"@, job_id@), ("payload"@, payload@)],
{
    let mut v: Vec<(String, String)> = Vec::new();
    v.push(pair("job_id", job_id));
    v.push(pair("payload", payload));
    assert(pairs_view(v@) =~= seq![("job_id"@, job_id@), ("payload"@, payload@)]);
    v
}

/// The fields of a dead-letter stream entry.
pub open spec fn dlq_fields_spec(
    job_id: Seq<char>,
    payload: Seq<char>,
    error: Seq<char>,
    source_stream_id: Seq<char>,
) -> Seq<(Seq<char>, Seq<char>)> {
    seq![
        ("job_id"@, job_id),
        ("payload"@, payload),
        ("error"@, error),
        ("source_stream_id"@, source_stream_id),
    ]
}

/// The fields of a dead-letter stream entry: the job, why it failed, and
/// the job stream entry it came from.
pub fn dlq_entry_fields(job_id: &str, payload: &str, error: &str, source_stream_id: &str) -> (res:
    Vec<(String, String)>)
    ensures
        pairs_view(res@) == dlq_fields_spec(job_id@, payload@, error@, source_stream_id@),
{
    let mut v: Vec<(String, String)> = Vec::new();
    v.push(pair("job_id", job_id));
    v.push(pair("payload", payload));
    v.push(pair("error", error));
    v.push(pair("source_stream_id", source_stream_id));
    assert(pairs_view(v@) =~= dlq_fields_spec(job_id@, payload@, error@, source_stream_id@));
    v
}

/// The dead-letter fields for a job stream entry that could not be read
/// as a job: its job id (or `unknown`) and payload (or nothing) as found.
pub fn corrupt_entry_dlq_fields(entry: &StreamEntry, error: &str) -> (res: Vec<(String, String)>)
    ensures
        pairs_view(res@) == dlq_fields_spec(
            match lookup(pairs_view(entry.fields@), "job_id"@) {
                Some(v) => v,
                None => "unknown"@,
            },
            match lookup(pairs_view(entry.fields@), "payload"@) {
                Some(v) => v,
                None => ""@,
            },
            error@,
            entry.id@,
        ),
{
    let job_id = match lookup_value(&entry.fields, "job_id") {
        Some(v) => v,
        None => owned("unknown"),
    };
    let payload = match lookup_value(&entry.fields, "payload") {
        Some(v) => v,
        None => owned(""),
    };
    dlq_entry_fields(job_id.as_str(), payload.as_str(), error, entry.id.as_str())
}

/// Whether a consumer group creation failure only says that the group
/// exists already (the Redis `BUSYGROUP` reply).
pub fn is_existing_group_error(message: &str) -> (res: bool)
    ensures
        res == contains_seq(message@, "BUSYGROUP"@),
{
    contains_str(message, "BUSYGROUP")
}

/// The fields of a session hash: its id, the sealed API key, and when it was made.
pub fn session_hash_fields(session_id: &str, encrypted_api_key: &str, created_at_ms: u64) -> (res:
    Vec<(String, String)>)
    ensures
        pairs_view(res@) == seq![
            ("session_id"@, session_id@),
            ("encrypted_api_key"@, encrypted_api_key@),
            ("created_at_ms"@, decimal(created_at_ms as nat)),
        ],
{
    let mut v: Vec<(String, String)> = Vec::new();
    v.push(pair("session_id", session_id));
    v.push(pair("encrypted_api_key", encrypted_api_key));
    let created = decimal_string(created_at_ms);
    v.push(pair("created_at_ms", created.as_str()));
    assert(pairs_view(v@) =~= seq![
        ("session_id"@, session_id@),
        ("encrypted_api_key"@, encrypted_api_key@),
        ("created_at_ms"@, decimal(created_at_ms as nat)),
    ]);
    v
}

// ---------------------------------------------------------------------
// Job state records
// ---------------------------------------------------------------------

/// A job state as it is written: all fields present, with empty text for
/// an absent result or error.
#[derive(Debug, Clone, Eq, PartialEq)]
pub struct JobStateRecord {
    pub job_id: String,
    pub status: JobStatus,
    pub retry: u32,
    pub stream_id: String,
    pub result: String,
    pub error: String,
    pub updated_at_ms: u64,
}

pub struct JobStateRecordView {
    pub job_id: Seq<char>,
    pub status: JobStatus,
    pub retry: u32,
    pub stream_id: Seq<char>,
    pub result: Seq<char>,
    pub error: Seq<char>,
    pub updated_at_ms: u64,
}

impl View for JobStateRecord {
    type V = JobStateRecordView;

    open spec fn view(&self) -> JobStateRecordView {
        JobStateRecordView {
            job_id: self.job_id@,
            status: self.status,
            retry: self.retry,
            stream_id: self.stream_id@,
            result: self.result@,
            error: self.error@,
            updated_at_ms: self.updated_at_ms,
        }
    }
}

/// The hash fields a record is written as, in order.
pub open spec fn record_fields_spec(r: JobStateRecordView) -> Seq<(Seq<char>, Seq<char>)> {
    seq![
        ("job_id"@, r.job_id),
        ("status"@, status_text(r.status)),
        ("retry"@, decimal(r.retry as nat)),
        ("stream_id"@, r.stream_id),
        ("result"@, r.result),
        ("error"@, r.error),
        ("updated_at_ms"@, decimal(r.updated_at_ms as nat)),
    ]
}

/// Text of an optional value, empty when absent.
pub open spec fn or_empty(v: Option<Seq<char>>) -> Seq<char> {
    match v {
        Some(s) => s,
        None => Seq::empty(),
    }
}

fn or_empty_string(v: Option<&str>) -> (res: String)
    ensures
        res@ == or_empty(
            match v {
                Some(s) => Some(s@),
                None => None,
            },
        ),
{
    proof {
        reveal_strlit("");
        assert(""@ =~= Seq::<char>::empty());
    }
    match v {
        Some(s) => owned(s),
        None => owned(""),
    }
}

pub open spec fn opt_str_view(v: Option<&str>) -> Option<Seq<char>> {
    match v {
        Some(s) => Some(s@),
        None => None,
    }
}

impl JobStateRecord {
    /// The record of a job's state; absent stream id, result or error are
    /// written as empty text.
    pub fn new(
        job_id: &str,
        status: JobStatus,
        retry: u32,
        stream_id: Option<&str>,
        result: Option<&str>,
        error: Option<&str>,
        updated_at_ms: u64,
    ) -> (res: Self)
        ensures
            res@ == (JobStateRecordView {
                job_id: job_id@,
                status,
                retry,
                stream_id: or_empty(opt_str_view(stream_id)),
                result: or_empty(opt_str_view(result)),
                error: or_empty(opt_str_view(error)),
                updated_at_ms,
            }),
    {
        JobStateRecord {
            job_id: owned(job_id),
            status,
            retry,
            stream_id: or_empty_string(stream_id),
            result: or_empty_string(result),
            error: or_empty_string(error),
            updated_at_ms,
        }
    }

    /// The record of a job that was just put on the job stream.
    pub fn queued(job: &Job, stream_id: &str, updated_at_ms: u64) -> (res: Self)
        ensures
            res@ == (JobStateRecordView {
                job_id: job.id@,
                status: JobStatus::Queued,
                retry: job.retry,
                stream_id: stream_id@,
                result: Seq::empty(),
                error: Seq::empty(),
                updated_at_ms,
            }),
    {
        Self::new(job.id.as_str(), JobStatus::Queued, job.retry, Some(stream_id), None, None, updated_at_ms)
    }

    /// The record of a delivered job that a worker starts.
    pub fn running(stream_job: &StreamJob, updated_at_ms: u64) -> (res: Self)
        ensures
            res@ == (JobStateRecordView {
                job_id: stream_job.job.id@,
                status: JobStatus::Running,
                retry: stream_job.job.retry,
                stream_id: stream_job.stream_id@,
                result: Seq::empty(),
                error: Seq::empty(),
                updated_at_ms,
            }),
    {
        Self::new(
            stream_job.job.id.as_str(),
            JobStatus::Running,
            stream_job.job.retry,
            Some(stream_job.stream_id.as_str()),
            None,
            None,
            updated_at_ms,
        )
    }

    /// The record of a job that finished with `result`.
    pub fn completed(stream_job: &StreamJob, result: &str, updated_at_ms: u64) -> (res: Self)
        ensures
            res@ == (JobStateRecordView {
                job_id: stream_job.job.id@,
                status: JobStatus::Completed,
                retry: stream_job.job.retry,
                stream_id: stream_job.stream_id@,
                result: result@,
                error: Seq::empty(),
                updated_at_ms,
            }),
    {
        proof {
            reveal_strlit("");
            assert(""@ =~= Seq::<char>::empty());
        }
        Self::new(
            stream_job.job.id.as_str(),
            JobStatus::Completed,
            stream_job.job.retry,
            Some(stream_job.stream_id.as_str()),
            Some(result),
            Some(""),
            updated_at_ms,
        )
    }

    /// The record of a job put back on the stream for its next attempt
    /// (`retry_job` is the job of that attempt) after failing with `error`.
    pub fn requeued(retry_job: &Job, new_stream_id: &str, error: &str, updated_at_ms: u64) -> (res:
        Self)
        ensures
            res@ == (JobStateRecordView {
                job_id: retry_job.id@,
                status: JobStatus::Queued,
                retry: retry_job.retry,
                stream_id: new_stream_id@,
                result: Seq::empty(),
                error: error@,
                updated_at_ms,
            }),
    {
        proof {
            reveal_strlit("");
            assert(""@ =~= Seq::<char>::empty());
        }
        Self::new(
            retry_job.id.as_str(),
            JobStatus::Queued,
            retry_job.retry,
            Some(new_stream_id),
            Some(""),
            Some(error),
            updated_at_ms,
        )
    }

    /// The record of a job moved to the dead-letter stream after `error`.
    pub fn dead_lettered(stream_job: &StreamJob, error: &str, updated_at_ms: u64) -> (res: Self)
        ensures
            res@ == (JobStateRecordView {
                job_id: stream_job.job.id@,
                status: JobStatus::DeadLettered,
                retry: stream_job.job.retry,
                stream_id: stream_job.stream_id@,
                result: Seq::empty(),
                error: error@,
                updated_at_ms,
            }),
    {
        proof {
            reveal_strlit("");
            assert(""@ =~= Seq::<char>::empty());
        }
        Self::new(
            stream_job.job.id.as_str(),
            JobStatus::DeadLettered,
            stream_job.job.retry,
            Some(stream_job.stream_id.as_str()),
            Some(""),
            Some(error),
            updated_at_ms,
        )
    }

    /// The hash fields the record is written as.
    pub fn to_fields(&self) -> (res: Vec<(String, String)>)
        ensures
            pairs_view(res@) == record_fields_spec(self@),
    {
        let mut v: Vec<(String, String)> = Vec::new();
        v.push(pair("job_id", self.job_id.as_str()));
        v.push(pair("status", self.status.as_str()));
        let retry = decimal_string(self.retry as u64);
        v.push(pair("retry", retry.as_str()));
        v.push(pair("stream_id", self.stream_id.as_str()));
        v.push(pair("result", self.result.as_str()));
        v.push(pair("error", self.error.as_str()));
        let updated = decimal_string(self.updated_at_ms);
        v.push(pair("updated_at_ms", updated.as_str()));
        assert(pairs_view(v@) =~= record_fields_spec(self@));
        v
    }
}

/// `Some` of a non-empty text, `None` for empty or absent text.
pub open spec fn non_empty(v: Option<Seq<char>>) -> Option<Seq<char>> {
    match v {
        Some(s) => if s.len() > 0 {
            Some(s)
        } else {
            None
        },
        None => None,
    }
}

/// A stored value, unless it is absent or empty.
pub fn non_empty_value(value: Option<&String>) -> (res: Option<String>)
    ensures
        opt_view(res) == non_empty(
            match value {
                Some(s) => Some(s@),
                None => None,
            },
        ),
{
    match value {
        Some(s) => {
            if s.as_str().unicode_len() == 0 {
                None
            } else {
                Some(s.clone())
            }
        },
        None => None,
    }
}

/// A stored integer field: `default` when absent, else its value, or the
/// message for text that is not an integer in range.
pub open spec fn int_field_spec(
    fields: Seq<(Seq<char>, Seq<char>)>,
    name: Seq<char>,
    max: int,
    job_id: Seq<char>,
) -> Result<int, Seq<char>> {
    match lookup(fields, name) {
        None => Ok(0),
        Some(v) => match parse_unsigned(v, max) {
            Ok(n) => Ok(n),
            Err(e) => Err("job state "@ + job_id + " has invalid "@ + name + ": "@ + int_parse_error_text(e)),
        },
    }
}

/// The job state that stored hash fields describe, or the message of the
/// first problem found in them.
pub open spec fn parse_job_state_spec(fields: Seq<(Seq<char>, Seq<char>)>) -> Result<
    JobStateView,
    Seq<char>,
> {
    match lookup(fields, "job_id"@) {
        None => Err("job state hash missing job_id"@),
        Some(job_id) => match lookup(fields, "status"@) {
            None => Err("job state "@ + job_id + " missing status"@),
            Some(st) => match status_from_text(st) {
                None => Err(unknown_status_message(st)),
                Some(status) => {
                    let retry = int_field_spec(fields, "retry"@, u32::MAX as int, job_id);
                    let updated = int_field_spec(fields, "updated_at_ms"@, u64::MAX as int, job_id);
                    if let Err(m) = retry {
                        Err(m)
                    } else if let Err(m) = updated {
                        Err(m)
                    } else {
                        Ok(
                            JobStateView {
                                job_id,
                                status,
                                retry: retry->Ok_0 as u32,
                                result: non_empty(lookup(fields, "result"@)),
                                error: non_empty(lookup(fields, "error"@)),
                                updated_at_ms: updated->Ok_0 as u64,
                            },
                        )
                    }
                },
            },
        },
    }
}

fn parse_int_field(values: &Vec<(String, String)>, name: &str, max: u64, job_id: &String) -> (res:
    Result<u64, AppError>)
    ensures
        match res {
            Ok(v) => int_field_spec(pairs_view(values@), name@, max as int, job_id@) == Ok::<
                int,
                Seq<char>,
            >(v as int) && v <= max,
            Err(e) => e is QueueData && int_field_spec(
                pairs_view(values@),
                name@,
                max as int,
                job_id@,
            ) == Err::<int, Seq<char>>(e->QueueData_0@),
        },
{
    match lookup_value(values, name) {
        None => Ok(0),
        Some(value) => match parse_unsigned_str(value.as_str(), max) {
            Ok(n) => {
                proof {
                    crate::text::lemma_parse_bound(value@, max as int);
                }
                Ok(n)
            },
            Err(e) => {
                let mut m = concat3("job state ", job_id.as_str(), " has invalid ");
                m.append(name);
                m.append(": ");
                let detail = e.message();
                m.append(detail.as_str());
                Err(AppError::QueueData(m))
            },
        },
    }
}

/// The job state that stored hash fields describe. Fails with a queue data
/// error when the job id or status is missing, the status is unknown, or
/// the attempt or update time is not an integer in range; absent attempt
/// and update time read as zero, and empty result or error as none.
pub fn parse_job_state(values: &Vec<(String, String)>) -> (res: Result<JobState, AppError>)
    ensures
        match res {
            Ok(s) => parse_job_state_spec(pairs_view(values@)) == Ok::<JobStateView, Seq<char>>(
                s@,
            ),
            Err(e) => e is QueueData && parse_job_state_spec(pairs_view(values@)) == Err::<
                JobStateView,
                Seq<char>,
            >(e->QueueData_0@),
        },
{
    let job_id = match lookup_value(values, "job_id") {
        Some(v) => v,
        None => return Err(AppError::QueueData(owned("job state hash missing job_id"))),
    };
    let status_text_value = match lookup_value(values, "status") {
        Some(v) => v,
        None => return Err(
            AppError::QueueData(concat3("job state ", job_id.as_str(), " missing status")),
        ),
    };
    let status = match JobStatus::try_from_str(status_text_value.as_str()) {
        Ok(s) => s,
        Err(m) => return Err(AppError::QueueData(m)),
    };
    let retry = match parse_int_field(values, "retry", u32::MAX as u64, &job_id) {
        Ok(v) => v as u32,
        Err(e) => return Err(e),
    };
    let updated_at_ms = match parse_int_field(values, "updated_at_ms", u64::MAX, &job_id) {
        Ok(v) => v,
        Err(e) => return Err(e),
    };
    let result_value = lookup_value(values, "result");
    let error_value = lookup_value(values, "error");
    Ok(
        JobState {
            job_id,
            status,
            retry,
            result: non_empty_value(result_value.as_ref()),
            error: non_empty_value(error_value.as_ref()),
            updated_at_ms,
        },
    )
}

/// The recorded state of a job from its stored hash: none for an empty
/// (absent) hash, else as `parse_job_state` reads it.
pub fn job_state_from_hash(values: &Vec<(String, String)>) -> (res: Result<
    Option<JobState>,
    AppError,
>)
    ensures
        values@.len() == 0 ==> res matches Ok(None),
        values@.len() > 0 ==> match res {
            Ok(Some(s)) => parse_job_state_spec(pairs_view(values@)) == Ok::<
                JobStateView,
                Seq<char>,
            >(s@),
            Ok(None) => false,
            Err(e) => e is QueueData && parse_job_state_spec(pairs_view(values@)) == Err::<
                JobStateView,
                Seq<char>,
            >(e->QueueData_0@),
        },
{
    if values.len() == 0 {
        return Ok(None);
    }
    match parse_job_state(values) {
        Ok(s) => Ok(Some(s)),
        Err(e) => Err(e),
    }
}

/// The state read from stored fields depends only on what looking up each
/// name gives, so two field lists that agree on every name (such as the
/// same map's pairs in another order) read as the same state.
pub proof fn lemma_job_state_depends_on_lookups(
    f: Seq<(Seq<char>, Seq<char>)>,
    g: Seq<(Seq<char>, Seq<char>)>,
)
    requires
        forall|name: Seq<char>| lookup(f, name) == lookup(g, name),
    ensures
        parse_job_state_spec(f) == parse_job_state_spec(g),
{
    assert(lookup(f, "job_id"@) == lookup(g, "job_id"@));
    assert(lookup(f, "status"@) == lookup(g, "status"@));
    assert(lookup(f, "retry"@) == lookup(g, "retry"@));
    assert(lookup(f, "updated_at_ms"@) == lookup(g, "updated_at_ms"@));
    assert(lookup(f, "result"@) == lookup(g, "result"@));
    assert(lookup(f, "error"@) == lookup(g, "error"@));
}

/// The state a record describes when read back.
pub open spec fn record_state(r: JobStateRecordView) -> JobStateView {
    JobStateView {
        job_id: r.job_id,
        status: r.status,
        retry: r.retry,
        result: non_empty(Some(r.result)),
        error: non_empty(Some(r.error)),
        updated_at_ms: r.updated_at_ms,
    }
}

/// Reading back a written record gives the state it records: the same
/// job, status, attempt and update time, with an empty result or error
/// read as none.
pub proof fn lemma_record_read_back(r: JobStateRecordView)
    ensures
        parse_job_state_spec(record_fields_spec(r)) == Ok::<JobStateView, Seq<char>>(
            record_state(r),
        ),
{
    reveal_strlit("job_id");
    reveal_strlit("status");
    reveal_strlit("retry");
    reveal_strlit("stream_id");
    reveal_strlit("result");
    reveal_strlit("error");
    reveal_strlit("updated_at_ms");
    let f = record_fields_spec(r);
    assert("status"@ != "job_id"@) by {
        assert("status"@[0] != "job_id"@[0]);
    }
    assert("result"@ != "job_id"@) by {
        assert("result"@[0] != "job_id"@[0]);
    }
    assert("result"@ != "status"@) by {
        assert("result"@[0] != "status"@[0]);
    }
    assert("error"@ != "retry"@) by {
        assert("error"@[0] != "retry"@[0]);
    }
    assert("result"@.len() == 6 && "retry"@.len() == 5 && "stream_id"@.len() == 9);
    assert("error"@.len() == 5 && "job_id"@.len() == 6 && "status"@.len() == 6);
    assert("updated_at_ms"@.len() == 13);
    reveal_with_fuel(lookup, 8);
    assert(lookup(f, "job_id"@) == Some(r.job_id));
    assert(lookup(f, "status"@) == Some(status_text(r.status)));
    assert(lookup(f, "retry"@) == Some(decimal(r.retry as nat)));
    assert(lookup(f, "updated_at_ms"@) == Some(decimal(r.updated_at_ms as nat)));
    assert(lookup(f, "result"@) == Some(r.result));
    assert(lookup(f, "error"@) == Some(r.error));
    crate::models::job::lemma_status_text_round_trip(r.status);
    crate::text::lemma_parse_decimal(r.retry as nat, u32::MAX as int);
    crate::text::lemma_parse_decimal(r.updated_at_ms as nat, u64::MAX as int);
}

// ---------------------------------------------------------------------
// Delivery decisions
// ---------------------------------------------------------------------

/// What to do with a delivered job stream entry.
#[derive(Debug, Clone, Copy, PartialEq, Eq, Structural)]
pub enum StartDecision {
    /// Record the job as running and process it.
    Run,
    /// Acknowledge the entry without processing it.
    SkipAndAck,
}

/// Whether a delivered attempt runs, given the recorded state of its job:
/// finished jobs, superseded attempts, and attempts already running under
/// another consumer (unless reclaimed from a stalled one) are skipped.
pub open spec fn start_decision_spec(
    existing: Option<JobStateView>,
    job_retry: u32,
    claimed_stale: bool,
) -> StartDecision {
    match existing {
        None => StartDecision::Run,
        Some(s) => if s.status.spec_is_terminal() {
            StartDecision::SkipAndAck
        } else if s.retry > job_retry {
            StartDecision::SkipAndAck
        } else if s.status == JobStatus::Running && !claimed_stale {
            StartDecision::SkipAndAck
        } else {
            StartDecision::Run
        },
    }
}

pub open spec fn opt_state_view(s: Option<JobState>) -> Option<JobStateView> {
    match s {
        Some(v) => Some(v@),
        None => None,
    }
}

/// Whether to run a delivered job, given its recorded state.
pub fn decide_start(existing: &Option<JobState>, stream_job: &StreamJob) -> (res: StartDecision)
    ensures
        res == start_decision_spec(
            opt_state_view(*existing),
            stream_job.job.retry,
            stream_job.claimed_stale,
        ),
{
    match existing {
        None => StartDecision::Run,
        Some(state) => {
            if state.status.is_terminal() {
                StartDecision::SkipAndAck
            } else if state.retry > stream_job.job.retry {
                StartDecision::SkipAndAck
            } else if state.status == JobStatus::Running && !stream_job.claimed_stale {
                StartDecision::SkipAndAck
            } else {
                StartDecision::Run
            }
        },
    }
}

/// A delivered entry is skipped exactly when its job has finished, a later
/// attempt is recorded, or the job is recorded as running and the entry was
/// not reclaimed from a stalled consumer; every other entry runs, a
/// reclaimed one included.
pub proof fn lemma_start_decision_rule(
    existing: Option<JobStateView>,
    job_retry: u32,
    claimed_stale: bool,
)
    ensures
        (start_decision_spec(existing, job_retry, claimed_stale) == StartDecision::SkipAndAck)
            <==> (existing matches Some(s) && (s.status == JobStatus::Completed || s.status
            == JobStatus::DeadLettered || s.retry > job_retry || (s.status == JobStatus::Running
            && !claimed_stale))),
        (start_decision_spec(existing, job_retry, claimed_stale) == StartDecision::Run) <==> !(
        existing matches Some(s) && (s.status == JobStatus::Completed || s.status
            == JobStatus::DeadLettered || s.retry > job_retry || (s.status == JobStatus::Running
            && !claimed_stale))),
{
}

/// A job whose recorded status is completed or dead-lettered is never
/// processed again, whichever entry delivers it.
pub proof fn lemma_finished_jobs_are_not_rerun(
    state: JobStateView,
    job_retry: u32,
    claimed_stale: bool,
)
    requires
        state.status == JobStatus::Completed || state.status == JobStatus::DeadLettered,
    ensures
        start_decision_spec(Some(state), job_retry, claimed_stale) == StartDecision::SkipAndAck,
{
}

/// An attempt older than the recorded one is never processed.
pub proof fn lemma_superseded_attempts_are_not_rerun(
    state: JobStateView,
    job_retry: u32,
    claimed_stale: bool,
)
    requires
        state.retry > job_retry,
    ensures
        start_decision_spec(Some(state), job_retry, claimed_stale) == StartDecision::SkipAndAck,
{
}

/// The position of the first pending entry idle for at least `claim_idle_ms`.
pub fn first_stale_entry(pending: &Vec<PendingEntry>, claim_idle_ms: usize) -> (res: Option<
    usize,
>)
    ensures
        match res {
            Some(i) => i < pending@.len() && pending@[i as int].last_delivered_ms >= claim_idle_ms
                && forall|j: int|
                0 <= j < i ==> #[trigger] pending@[j].last_delivered_ms < claim_idle_ms,
            None => forall|j: int|
                0 <= j < pending@.len() ==> #[trigger] pending@[j].last_delivered_ms
                    < claim_idle_ms,
        },
{
    let n = pending.len();
    let mut i: usize = 0;
    while i < n
        invariant
            n == pending@.len(),
            i <= n,
            forall|j: int| 0 <= j < i ==> #[trigger] pending@[j].last_delivered_ms < claim_idle_ms,
        decreases n - i,
    {
        if pending[i].last_delivered_ms >= claim_idle_ms {
            return Some(i);
        }
        i = i + 1;
    }
    None
}

pub open spec fn entry_view(e: StreamEntry) -> (Seq<char>, Seq<(Seq<char>, Seq<char>)>) {
    (e.id@, pairs_view(e.fields@))
}

/// The first entry of the first stream in a read reply, if it has one.
pub fn first_stream_entry(streams: Vec<Vec<StreamEntry>>) -> (res: Option<StreamEntry>)
    ensures
        match res {
            Some(e) => streams@.len() > 0 && streams@[0]@.len() > 0 && entry_view(e) == entry_view(
                streams@[0]@[0],
            ),
            None => streams@.len() == 0 || streams@[0]@.len() == 0,
        },
{
    let mut streams = streams;
    if streams.len() == 0 {
        return None;
    }
    let mut first = streams.remove(0);
    if first.len() == 0 {
        return None;
    }
    Some(first.remove(0))
}

/// A job stream entry whose payload is still to be read as a job.
#[derive(Debug, Clone, Eq, PartialEq)]
pub struct EncodedStreamJob {
    pub stream_id: String,
    pub payload: String,
    pub claimed_stale: bool,
}

impl EncodedStreamJob {
    /// The delivered job, once its payload has been read as `job`.
    pub fn into_stream_job(self, job: Job) -> (res: StreamJob)
        ensures
            res.stream_id@ == self.stream_id@,
            res.job == job,
            res.claimed_stale == self.claimed_stale,
    {
        StreamJob { stream_id: self.stream_id, job, claimed_stale: self.claimed_stale }
    }
}

/// The id and payload of a job stream entry. Fails with a queue data error
/// when the entry has no payload field.
pub fn decode_stream_job(entry: StreamEntry, claimed_stale: bool) -> (res: Result<
    EncodedStreamJob,
    AppError,
>)
    ensures
        match res {
            Ok(j) => lookup(pairs_view(entry.fields@), "payload"@) == Some(j.payload@)
                && j.stream_id@ == entry.id@ && j.claimed_stale == claimed_stale,
            Err(e) => lookup(pairs_view(entry.fields@), "payload"@) is None && e is QueueData
                && e->QueueData_0@ == "stream entry "@ + entry.id@ + " is missing payload"@,
        },
{
    match lookup_value(&entry.fields, "payload") {
        None => Err(
            AppError::QueueData(
                concat3("stream entry ", entry.id.as_str(), " is missing payload"),
            ),
        ),
        Some(payload) => Ok(EncodedStreamJob { stream_id: entry.id, payload, claimed_stale }),
    }
}

// ---------------------------------------------------------------------
// Clock
// ---------------------------------------------------------------------

#[verifier::external_type_specification]
#[verifier::external_body]
pub struct ExSystemTime(SystemTime);

/// `SystemTime::now`. Nothing is claimed of the reading.
#[verifier::external_body]
fn system_now() -> SystemTime {
    SystemTime::now()
}

/// `SystemTime::duration_since` from the Unix epoch; `None` for a time
/// before it. Nothing is claimed of the duration.
#[verifier::external_body]
fn since_unix_epoch(t: &SystemTime) -> Option<Duration> {
    t.duration_since(UNIX_EPOCH).ok()
}

/// The whole milliseconds of a duration (`Duration::as_millis`).
pub uninterp spec fn duration_millis(d: Duration) -> u128;

/// `Duration::as_millis`. The contract claims only that the count is the
/// whole milliseconds of that duration.
#[verifier::external_body]
fn whole_millis(d: &Duration) -> (res: u128)
    ensures
        res == duration_millis(*d),
{
    d.as_millis()
}

/// The 64-bit truncation of a millisecond count.
pub open spec fn low_64_bits(ms: u128) -> u64 {
    ms as u64
}

/// The millisecond reading for a time `since` after the Unix epoch (none
/// for a time before it): its whole milliseconds truncated to 64 bits, or zero.
pub open spec fn millis_since_epoch_spec(since: Option<Duration>) -> u64 {
    match since {
        Some(d) => low_64_bits(duration_millis(d)),
        None => 0,
    }
}

/// The millisecond reading for a time `since` after the Unix epoch.
pub fn millis_since_epoch(since: Option<Duration>) -> (res: u64)
    ensures
        res == millis_since_epoch_spec(since),
{
    match since {
        Some(d) => {
            let ms = whole_millis(&d);
            #[verifier::truncate]
            (ms as u64)
        },
        None => 0,
    }
}

/// Milliseconds since the Unix epoch by the system clock, truncated to 64
/// bits; zero when the clock reads before the epoch.
pub fn now_ms() -> (res: u64)
    ensures
        exists|since: Option<Duration>| res == #[trigger] millis_since_epoch_spec(since),
{
    let t = system_now();
    let since = since_unix_epoch(&t);
    let ghost reading = since;
    let res = millis_since_epoch(since);
    assert(res == millis_since_epoch_spec(reading));
    res
}

// ---------------------------------------------------------------------
// Session API key sealing
// ---------------------------------------------------------------------

/// SHA-256 of the input (`sha2::Sha256::digest`).
pub uninterp spec fn sha256_digest(data: Seq<u8>) -> Seq<u8>;

/// `sha2::Sha256::digest`. The contract claims that the digest is the
/// SHA-256 of the input and that it is 32 bytes long.
#[verifier::external_body]
fn sha256(data: &[u8]) -> (res: Vec<u8>)
    ensures
        res@ == sha256_digest(data@),
        res@.len() == 32,
{
    Sha256::digest(data).to_vec()
}

/// Largest plaintext that AES-GCM seals (`aes_gcm::P_MAX`).
pub const AES_GCM_MAX_PLAINTEXT: u64 = 68719476736;

/// AES-256-GCM sealing (no associated data): ciphertext followed by tag.
pub uninterp spec fn aes256gcm_seal(key: Seq<u8>, nonce: Seq<u8>, plaintext: Seq<u8>) -> Seq<u8>;

/// AES-256-GCM opening (no associated data): the plaintext, or `None`
/// when the tag does not verify.
pub uninterp spec fn aes256gcm_open(key: Seq<u8>, nonce: Seq<u8>, ciphertext: Seq<u8>) -> Option<
    Seq<u8>,
>;

/// `Aead::encrypt` of `aes_gcm::Aes256Gcm` keyed with `key`. The contract
/// claims: it succeeds exactly for plaintexts of at most `P_MAX` bytes, and
/// then returns the sealed text, which is 16 bytes longer than the plaintext.
#[verifier::external_body]
fn aes256gcm_encrypt(key: &[u8], nonce: &[u8], plaintext: &[u8]) -> (res: Option<Vec<u8>>)
    requires
        key@.len() == 32,
        nonce@.len() == 12,
    ensures
        res is Some <==> plaintext@.len() <= AES_GCM_MAX_PLAINTEXT,
        res matches Some(c) ==> c@ == aes256gcm_seal(key@, nonce@, plaintext@) && c@.len()
            == plaintext@.len() + 16,
{
    Aes256Gcm::new(Key::<Aes256Gcm>::from_slice(key)).encrypt(Nonce::from_slice(nonce), plaintext).ok()
}

pub open spec fn opt_bytes(o: Option<Vec<u8>>) -> Option<Seq<u8>> {
    match o {
        Some(v) => Some(v@),
        None => None,
    }
}

/// `Aead::decrypt` of `aes_gcm::Aes256Gcm` keyed with `key`. The contract
/// claims: the result is the opening of the ciphertext, and opening what
/// sealing produced under the same key and nonce gives back the plaintext.
#[verifier::external_body]
fn aes256gcm_decrypt(key: &[u8], nonce: &[u8], ciphertext: &[u8]) -> (res: Option<Vec<u8>>)
    requires
        key@.len() == 32,
        nonce@.len() == 12,
    ensures
        opt_bytes(res) == aes256gcm_open(key@, nonce@, ciphertext@),
        forall|p: Seq<u8>|
            p.len() <= AES_GCM_MAX_PLAINTEXT && ciphertext@ == #[trigger] aes256gcm_seal(
                key@,
                nonce@,
                p,
            ) ==> opt_bytes(res) == Some(p),
{
    Aes256Gcm::new(Key::<Aes256Gcm>::from_slice(key)).decrypt(Nonce::from_slice(nonce), ciphertext).ok()
}

/// `OsRng::try_fill_bytes` (the operating system's random source, as
/// `aes_gcm` re-exports it) into a 12-byte nonce. The contract claims only
/// that a nonce it returns is 12 bytes long; it returns none when the source
/// fails. Its bytes are not claimed.
#[verifier::external_body]
fn random_nonce() -> (res: Option<Vec<u8>>)
    ensures
        res matches Some(n) ==> n@.len() == 12,
{
    let mut nonce = vec![0u8; 12];
    OsRng.try_fill_bytes(&mut nonce).ok().map(|_| nonce)
}

/// Standard base64 without padding (`STANDARD_NO_PAD.encode`).
pub uninterp spec fn base64_no_pad(bytes: Seq<u8>) -> Seq<char>;

/// Decoding of standard unpadded base64 (`STANDARD_NO_PAD.decode`).
pub uninterp spec fn base64_no_pad_decode(text: Seq<char>) -> Option<Seq<u8>>;

/// `base64`'s `STANDARD_NO_PAD.encode`. The contract claims that the text
/// is the standard unpadded base64 of the bytes: four characters for each
/// full three bytes, and two or three for a final one or two bytes.
#[verifier::external_body]
fn base64_encode(bytes: &[u8]) -> (res: String)
    ensures
        res@ == base64_no_pad(bytes@),
        res@.len() == (4 * bytes@.len() + 2) / 3,
{
    STANDARD_NO_PAD.encode(bytes)
}

/// `base64`'s `STANDARD_NO_PAD.decode`. The contract claims that the result
/// is the decoding of the text, and that decoding an encoding gives back
/// the encoded bytes.
#[verifier::external_body]
fn base64_decode(text: &str) -> (res: Option<Vec<u8>>)
    ensures
        opt_bytes(res) == base64_no_pad_decode(text@),
        forall|b: Seq<u8>| text@ == #[trigger] base64_no_pad(b) ==> opt_bytes(res) == Some(b),
{
    STANDARD_NO_PAD.decode(text).ok()
}

/// `String::from_utf8`. The contract claims: it succeeds exactly on valid
/// UTF-8, and then holds the characters those bytes encode.
#[verifier::external_body]
fn string_from_utf8(bytes: Vec<u8>) -> (res: Option<String>)
    ensures
        res is Some <==> valid_utf8(bytes@),
        res matches Some(s) ==> s@ == decode_utf8(bytes@),
{
    String::from_utf8(bytes).ok()
}

/// The key that seals session API keys: the SHA-256 of the session secret.
pub struct SessionCipher {
    key: Vec<u8>,
}

impl View for SessionCipher {
    type V = Seq<u8>;

    closed spec fn view(&self) -> Seq<u8> {
        self.key@
    }
}

impl SessionCipher {
    #[verifier::type_invariant]
    closed spec fn key_is_256_bits(&self) -> bool {
        self.key@.len() == 32
    }
}

/// The sealing key derived from the session secret.
pub fn build_session_cipher(session_secret: &str) -> (res: Result<SessionCipher, AppError>)
    ensures
        res matches Ok(c) && c@ == sha256_digest(encode_utf8(session_secret@)),
{
    let digest = sha256(session_secret.as_bytes());
    Ok(SessionCipher { key: digest })
}

/// What a stored session key is: base64 of the nonce followed by the
/// sealed UTF-8 bytes of the API key.
pub open spec fn sealed_api_key(key: Seq<u8>, nonce: Seq<u8>, api_key: Seq<char>) -> Seq<char> {
    base64_no_pad(nonce + aes256gcm_seal(key, nonce, encode_utf8(api_key)))
}

/// `nonce` and `api_key` are what a stored session key was sealed from:
/// a 12-byte nonce, and a key that AES-GCM accepts, sealed to its length
/// plus the 16-byte tag.
pub open spec fn well_sealed(key: Seq<u8>, nonce: Seq<u8>, api_key: Seq<char>) -> bool {
    &&& nonce.len() == 12
    &&& encode_utf8(api_key).len() <= AES_GCM_MAX_PLAINTEXT
    &&& aes256gcm_seal(key, nonce, encode_utf8(api_key)).len() == encode_utf8(api_key).len() + 16
}

/// The message when no nonce could be had.
pub open spec fn nonce_failure_message() -> Seq<char> {
    "failed to generate session API key nonce"@
}

/// The message when AES-GCM refuses the key.
pub open spec fn seal_failure_message() -> Seq<char> {
    "failed to encrypt session API key"@
}

/// The UTF-8 encoding of a text is at least as long as the text.
pub proof fn lemma_utf8_len_at_least_chars(s: Seq<char>)
    ensures
        encode_utf8(s).len() >= s.len(),
    decreases s.len(),
{
    if s.len() > 0 {
        lemma_utf8_len_at_least_chars(s.drop_first());
        assert(encode_scalar(s[0] as u32).len() >= 1);
    }
}

/// Seals an API key for storage under `nonce`. Fails with a crypto error
/// when there is no 12-byte nonce, or when the key is too long for AES-GCM.
/// The stored text is base64 of the nonce, the sealed key and its tag, and
/// so it is longer than the key and never equal to it.
pub fn seal_api_key(cipher: &SessionCipher, nonce: Option<Vec<u8>>, api_key: &str) -> (res: Result<
    String,
    AppError,
>)
    ensures
        match nonce {
            Some(n) if n@.len() == 12 => if encode_utf8(api_key@).len() <= AES_GCM_MAX_PLAINTEXT {
                res matches Ok(s) && well_sealed(cipher@, n@, api_key@) && s@ == sealed_api_key(
                    cipher@,
                    n@,
                    api_key@,
                ) && s@.len() == (4 * (28 + encode_utf8(api_key@).len()) + 2) / 3 && s@
                    != api_key@
            } else {
                res matches Err(e) && e is Crypto && e->Crypto_0@ == seal_failure_message()
            },
            _ => res matches Err(e) && e is Crypto && e->Crypto_0@ == nonce_failure_message(),
        },
{
    proof {
        use_type_invariant(cipher);
    }
    let nonce = match nonce {
        Some(n) => {
            if n.len() != 12 {
                return Err(AppError::Crypto(owned("failed to generate session API key nonce")));
            }
            n
        },
        None => return Err(AppError::Crypto(owned("failed to generate session API key nonce"))),
    };
    let plaintext = api_key.as_bytes();
    match aes256gcm_encrypt(cipher.key.as_slice(), nonce.as_slice(), plaintext) {
        None => Err(AppError::Crypto(owned("failed to encrypt session API key"))),
        Some(ciphertext) => {
            let mut payload = nonce.clone();
            let mut i: usize = 0;
            let n = ciphertext.len();
            while i < n
                invariant
                    n == ciphertext@.len(),
                    i <= n,
                    payload@ == nonce@ + ciphertext@.subrange(0, i as int),
                decreases n - i,
            {
                payload.push(ciphertext[i]);
                i = i + 1;
            }
            assert(ciphertext@.subrange(0, n as int) =~= ciphertext@);
            let text = base64_encode(payload.as_slice());
            assert(text@ == sealed_api_key(cipher@, nonce@, api_key@));
            proof {
                let l = encode_utf8(api_key@).len();
                lemma_utf8_len_at_least_chars(api_key@);
                assert(payload@.len() == 28 + l);
                assert((4 * (28 + l) + 2) / 3 > l);
                assert(text@.len() != api_key@.len());
            }
            Ok(text)
        },
    }
}

/// Seals an API key for storage under a fresh random nonce (see
/// `seal_api_key`). Fails with a crypto error when the operating system's
/// random source yields no nonce, or when the key is too long for AES-GCM.
pub fn encrypt_api_key(cipher: &SessionCipher, api_key: &str) -> (res: Result<String, AppError>)
    ensures
        res matches Ok(s) ==> encode_utf8(api_key@).len() <= AES_GCM_MAX_PLAINTEXT && s@ != api_key@
            && s@.len() == (4 * (28 + encode_utf8(api_key@).len()) + 2) / 3 && exists|nonce: Seq<u8>|
            well_sealed(cipher@, nonce, api_key@) && s@ == #[trigger] sealed_api_key(
                cipher@,
                nonce,
                api_key@,
            ),
        res matches Err(e) ==> e is Crypto && (e->Crypto_0@ == nonce_failure_message() || (
        e->Crypto_0@ == seal_failure_message() && encode_utf8(api_key@).len()
            > AES_GCM_MAX_PLAINTEXT)),
        encode_utf8(api_key@).len() > AES_GCM_MAX_PLAINTEXT ==> res is Err,
{
    let nonce = random_nonce();
    let ghost given = nonce;
    let res = seal_api_key(cipher, nonce, api_key);
    proof {
        if let Some(n) = given {
            if res is Ok {
                assert(n@.len() == 12);
            }
        }
    }
    res
}

/// The API key a stored text unseals to, or the message of the step that fails.
pub open spec fn unseal_spec(key: Seq<u8>, stored: Seq<char>) -> Result<Seq<char>, Seq<char>> {
    match base64_no_pad_decode(stored) {
        None => Err("stored session API key is not valid base64"@),
        Some(bytes) => if bytes.len() <= 12 {
            Err("stored session API key payload is malformed"@)
        } else {
            match aes256gcm_open(key, bytes.subrange(0, 12), bytes.subrange(12, bytes.len() as int)) {
                None => Err("failed to decrypt session API key"@),
                Some(plain) => if valid_utf8(plain) {
                    Ok(decode_utf8(plain))
                } else {
                    Err("session API key is not valid UTF-8"@)
                },
            }
        },
    }
}

/// The API key of a session from its stored sealed key: unauthorized when
/// the session holds none (unknown or expired), else as `decrypt_api_key`
/// unseals it.
pub fn unseal_session_api_key(cipher: &SessionCipher, stored: Option<String>) -> (res: Result<
    String,
    AppError,
>)
    ensures
        match stored {
            None => res matches Err(e) && e is Unauthorized && e->Unauthorized_0@
                == "session is invalid or expired"@,
            Some(s) => match res {
                Ok(k) => unseal_spec(cipher@, s@) == Ok::<Seq<char>, Seq<char>>(k@),
                Err(e) => e is Crypto && unseal_spec(cipher@, s@) == Err::<Seq<char>, Seq<char>>(
                    e->Crypto_0@,
                ),
            },
        },
        forall|nonce: Seq<u8>, api_key: Seq<char>|
            #![trigger sealed_api_key(cipher@, nonce, api_key)]
            stored matches Some(s) && well_sealed(cipher@, nonce, api_key) && s@ == sealed_api_key(
                cipher@,
                nonce,
                api_key,
            ) ==> (res matches Ok(k) && k@ == api_key),
{
    match stored {
        None => Err(AppError::Unauthorized(owned("session is invalid or expired"))),
        Some(s) => decrypt_api_key(cipher, s.as_str()),
    }
}

/// Unseals a stored session API key. Fails with a crypto error when the
/// text is not base64, too short to hold a nonce and a sealed key, does
/// not open under the cipher's key, or does not open to UTF-8. A text that
/// `encrypt_api_key` produced with this cipher unseals to the API key it sealed.
pub fn decrypt_api_key(cipher: &SessionCipher, encrypted_api_key: &str) -> (res: Result<
    String,
    AppError,
>)
    ensures
        match res {
            Ok(k) => unseal_spec(cipher@, encrypted_api_key@) == Ok::<Seq<char>, Seq<char>>(k@),
            Err(e) => e is Crypto && unseal_spec(cipher@, encrypted_api_key@) == Err::<
                Seq<char>,
                Seq<char>,
            >(e->Crypto_0@),
        },
        forall|nonce: Seq<u8>, api_key: Seq<char>|
            well_sealed(cipher@, nonce, api_key) && encrypted_api_key@ == #[trigger] sealed_api_key(
                cipher@,
                nonce,
                api_key,
            ) ==> (res matches Ok(k) && k@ == api_key),
{
    proof {
        use_type_invariant(cipher);
    }
    let decoded = base64_decode(encrypted_api_key);
    let payload = match decoded {
        None => {
            let r = Err(AppError::Crypto(owned("stored session API key is not valid base64")));
            proof {
                assert forall|nonce: Seq<u8>, api_key: Seq<char>|
                    well_sealed(cipher@, nonce, api_key) && encrypted_api_key@ == #[trigger] sealed_api_key(cipher@, nonce, api_key)
                    implies false by {
                    let b = nonce + aes256gcm_seal(cipher@, nonce, encode_utf8(api_key));
                    assert(encrypted_api_key@ == base64_no_pad(b));
                }
            }
            return r;
        },
        Some(p) => p,
    };
    let len = payload.len();
    if len <= 12 {
        let r = Err(AppError::Crypto(owned("stored session API key payload is malformed")));
        proof {
            assert forall|nonce: Seq<u8>, api_key: Seq<char>|
                well_sealed(cipher@, nonce, api_key) && encrypted_api_key@ == #[trigger] sealed_api_key(cipher@, nonce, api_key)
                implies false by {
                let b = nonce + aes256gcm_seal(cipher@, nonce, encode_utf8(api_key));
                assert(encrypted_api_key@ == base64_no_pad(b));
                assert(payload@ == b);
                assert(b.len() == 12 + aes256gcm_seal(cipher@, nonce, encode_utf8(api_key)).len());
            }
        }
        return r;
    }
    let mut nonce: Vec<u8> = Vec::new();
    let mut i: usize = 0;
    while i < 12
        invariant
            len == payload@.len(),
            12 < len,
            i <= 12,
            nonce@ == payload@.subrange(0, i as int),
        decreases 12 - i,
    {
        nonce.push(payload[i]);
        i = i + 1;
    }
    let mut ciphertext: Vec<u8> = Vec::new();
    let mut j: usize = 12;
    while j < len
        invariant
            len == payload@.len(),
            12 <= j <= len,
            ciphertext@ == payload@.subrange(12, j as int),
        decreases len - j,
    {
        ciphertext.push(payload[j]);
        j = j + 1;
    }
    let opened = aes256gcm_decrypt(cipher.key.as_slice(), nonce.as_slice(), ciphertext.as_slice());
    proof {
        assert forall|n: Seq<u8>, api_key: Seq<char>|
            well_sealed(cipher@, n, api_key) && encrypted_api_key@ == #[trigger] sealed_api_key(cipher@, n, api_key)
            implies opt_bytes(opened) == Some(encode_utf8(api_key)) by {
            let sealed = aes256gcm_seal(cipher@, n, encode_utf8(api_key));
            let b = n + sealed;
            assert(encrypted_api_key@ == base64_no_pad(b));
            assert(payload@ == b);
            assert(nonce@ =~= n);
            assert(ciphertext@ =~= sealed);
        }
    }
    let plain = match opened {
        None => {
            let r = Err(AppError::Crypto(owned("failed to decrypt session API key")));
            proof {
                assert forall|n: Seq<u8>, api_key: Seq<char>|
                    well_sealed(cipher@, n, api_key) && encrypted_api_key@ == #[trigger] sealed_api_key(cipher@, n, api_key)
                    implies false by {
                    assert(opt_bytes(opened) == Some(encode_utf8(api_key)));
                }
            }
            return r;
        },
        Some(p) => p,
    };
    let ghost plain_bytes = plain@;
    match string_from_utf8(plain) {
        None => {
            proof {
                assert forall|n: Seq<u8>, api_key: Seq<char>|
                    well_sealed(cipher@, n, api_key) && encrypted_api_key@ == #[trigger] sealed_api_key(cipher@, n, api_key)
                    implies false by {
                    assert(opt_bytes(opened) == Some(encode_utf8(api_key)));
                    assert(plain_bytes == encode_utf8(api_key));
                    encode_utf8_valid_utf8(api_key);
                }
            }
            Err(AppError::Crypto(owned("session API key is not valid UTF-8")))
        },
        Some(s) => {
            proof {
                assert forall|n: Seq<u8>, api_key: Seq<char>|
                    well_sealed(cipher@, n, api_key) && encrypted_api_key@ == #[trigger] sealed_api_key(cipher@, n, api_key)
                    implies s@ == api_key by {
                    assert(opt_bytes(opened) == Some(encode_utf8(api_key)));
                    assert(plain_bytes == encode_utf8(api_key));
                    encode_utf8_decode_utf8(api_key);
                }
            }
            Ok(s)
        },
    }
}

} // verus!

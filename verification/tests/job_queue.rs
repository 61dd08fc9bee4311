use std::collections::HashMap;

use ai_debug_agent::errors::error::AppError;
use ai_debug_agent::models::job::{Job, JobState, JobStatus};
use ai_debug_agent::queue::job_queue::{
    build_session_cipher, corrupt_entry_dlq_fields, decide_start, decode_stream_job,
    decrypt_api_key, dlq_entry_fields, encrypt_api_key, first_stale_entry, first_stream_entry,
    is_existing_group_error, job_entry_fields, millis_since_epoch, now_ms, job_key, job_state_from_hash, non_empty_value,
    parse_job_state, seal_api_key, session_hash_fields, session_key, unseal_session_api_key, JobStateRecord,
    PendingEntry, StartDecision, StreamEntry, StreamJob,
};

fn pairs(items: &[(&str, &str)]) -> Vec<(String, String)> {
    items.iter().map(|(k, v)| (k.to_string(), v.to_string())).collect()
}

fn stream_job(retry: u32, claimed_stale: bool) -> StreamJob {
    StreamJob {
        stream_id: "5-0".to_string(),
        job: Job {
            id: "job-7".to_string(),
            session_id: "s-1".to_string(),
            retry,
            logs: "boom".to_string(),
        },
        claimed_stale,
    }
}

fn state(status: JobStatus, retry: u32) -> JobState {
    JobState {
        job_id: "job-7".to_string(),
        status,
        retry,
        result: None,
        error: None,
        updated_at_ms: 1,
    }
}

#[test]
fn parse_job_state_converts_empty_result_and_error_to_none() {
    let mut values = HashMap::new();
    values.insert("job_id".to_string(), "job-1".to_string());
    values.insert("status".to_string(), "queued".to_string());
    values.insert("retry".to_string(), "2".to_string());
    values.insert("result".to_string(), "".to_string());
    values.insert("error".to_string(), "".to_string());
    values.insert("updated_at_ms".to_string(), "42".to_string());
    let values: Vec<(String, String)> = values.into_iter().collect();

    let parsed = parse_job_state(&values).unwrap();

    assert_eq!(parsed.job_id, "job-1");
    assert_eq!(parsed.status, JobStatus::Queued);
    assert_eq!(parsed.retry, 2);
    assert_eq!(parsed.result, None);
    assert_eq!(parsed.error, None);
    assert_eq!(parsed.updated_at_ms, 42);
}

#[test]
fn decode_stream_job_rejects_missing_payload() {
    let stream_id = StreamEntry {
        id: "1-0".to_string(),
        fields: Vec::new(),
    };

    let error = decode_stream_job(stream_id, false).unwrap_err();
    assert!(matches!(error, AppError::QueueData(_)));
}

#[test]
fn encrypt_and_decrypt_api_key_round_trip() {
    let cipher = build_session_cipher("0123456789abcdef0123456789abcdef").unwrap();
    let encrypted = encrypt_api_key(&cipher, "sk-test-123").unwrap();

    assert_ne!(encrypted, "sk-test-123");
    assert_eq!(decrypt_api_key(&cipher, &encrypted).unwrap(), "sk-test-123");
}

#[test]
fn missing_payload_message_names_the_entry() {
    let error = decode_stream_job(
        StreamEntry { id: "1-0".to_string(), fields: pairs(&[("job_id", "j")]) },
        false,
    )
    .unwrap_err();
    assert_eq!(error, AppError::QueueData("stream entry 1-0 is missing payload".to_string()));
}

#[test]
fn decode_stream_job_keeps_payload_and_reclaim_flag() {
    let entry = StreamEntry {
        id: "9-1".to_string(),
        fields: pairs(&[("job_id", "j"), ("payload", "{\"id\":\"j\"}")]),
    };
    let encoded = decode_stream_job(entry, true).unwrap();
    assert_eq!(encoded.stream_id, "9-1");
    assert_eq!(encoded.payload, "{\"id\":\"j\"}");
    assert!(encoded.claimed_stale);
    let job = Job { id: "j".into(), session_id: "s".into(), retry: 1, logs: "l".into() };
    let sj = encoded.into_stream_job(job.clone());
    assert_eq!(sj.job, job);
    assert_eq!(sj.stream_id, "9-1");
    assert!(sj.claimed_stale);
}

#[test]
fn keys_are_prefixed() {
    assert_eq!(job_key("abc"), "job:abc");
    assert_eq!(session_key("xyz"), "session:xyz");
}

#[test]
fn record_fields_read_back_as_state() {
    let sj = stream_job(3, false);
    let record = JobStateRecord::completed(&sj, "fixed it", 1234567890123);
    let fields = record.to_fields();
    assert_eq!(
        fields,
        pairs(&[
            ("job_id", "job-7"),
            ("status", "completed"),
            ("retry", "3"),
            ("stream_id", "5-0"),
            ("result", "fixed it"),
            ("error", ""),
            ("updated_at_ms", "1234567890123"),
        ])
    );
    let back = parse_job_state(&fields).unwrap();
    assert_eq!(
        back,
        JobState {
            job_id: "job-7".to_string(),
            status: JobStatus::Completed,
            retry: 3,
            result: Some("fixed it".to_string()),
            error: None,
            updated_at_ms: 1234567890123,
        }
    );
}

#[test]
fn requeued_record_carries_next_attempt_and_error() {
    let sj = stream_job(1, false);
    let next = sj.job.next_retry();
    let record = JobStateRecord::requeued(&next, "8-0", "HTTP error: timeout", 5);
    let back = parse_job_state(&record.to_fields()).unwrap();
    assert_eq!(back.status, JobStatus::Queued);
    assert_eq!(back.retry, 2);
    assert_eq!(back.result, None);
    assert_eq!(back.error, Some("HTTP error: timeout".to_string()));
    assert_eq!(record.stream_id, "8-0");
}

#[test]
fn dead_lettered_and_running_records() {
    let sj = stream_job(0, true);
    let dl = JobStateRecord::dead_lettered(&sj, "bad", 9);
    assert_eq!(dl.status, JobStatus::DeadLettered);
    assert_eq!(dl.error, "bad");
    assert_eq!(dl.result, "");
    let running = JobStateRecord::running(&sj, 10);
    assert_eq!(running.status, JobStatus::Running);
    assert_eq!(running.stream_id, "5-0");
    assert_eq!(running.error, "");
    let queued = JobStateRecord::queued(&sj.job, "1-1", 11);
    assert_eq!(queued.status, JobStatus::Queued);
    assert_eq!(queued.retry, 0);
    let generic = JobStateRecord::new("j", JobStatus::Running, 4, None, Some("r"), None, 12);
    assert_eq!(generic.stream_id, "");
    assert_eq!(generic.result, "r");
}

#[test]
fn parse_job_state_errors() {
    let missing_id = parse_job_state(&pairs(&[("status", "queued")])).unwrap_err();
    assert_eq!(missing_id, AppError::QueueData("job state hash missing job_id".into()));
    let missing_status = parse_job_state(&pairs(&[("job_id", "j1")])).unwrap_err();
    assert_eq!(missing_status, AppError::QueueData("job state j1 missing status".into()));
    let unknown = parse_job_state(&pairs(&[("job_id", "j1"), ("status", "paused")])).unwrap_err();
    assert_eq!(unknown, AppError::QueueData("unknown job status 'paused'".into()));
    let bad_retry =
        parse_job_state(&pairs(&[("job_id", "j1"), ("status", "running"), ("retry", "x1")]))
            .unwrap_err();
    assert_eq!(
        bad_retry,
        AppError::QueueData("job state j1 has invalid retry: invalid digit found in string".into())
    );
    let big_retry = parse_job_state(&pairs(&[
        ("job_id", "j1"),
        ("status", "running"),
        ("retry", "4294967296"),
    ]))
    .unwrap_err();
    assert_eq!(
        big_retry,
        AppError::QueueData(
            "job state j1 has invalid retry: number too large to fit in target type".into()
        )
    );
    let empty_time = parse_job_state(&pairs(&[
        ("job_id", "j1"),
        ("status", "running"),
        ("updated_at_ms", ""),
    ]))
    .unwrap_err();
    assert_eq!(
        empty_time,
        AppError::QueueData(
            "job state j1 has invalid updated_at_ms: cannot parse integer from empty string"
                .into()
        )
    );
}

#[test]
fn parse_job_state_defaults_and_plus_sign() {
    let s = parse_job_state(&pairs(&[("job_id", "j"), ("status", "dead_lettered"), ("retry", "+7")]))
        .unwrap();
    assert_eq!(s.retry, 7);
    assert_eq!(s.updated_at_ms, 0);
    assert_eq!(s.status, JobStatus::DeadLettered);
}

#[test]
fn job_state_from_hash_of_absent_job() {
    assert_eq!(job_state_from_hash(&Vec::new()), Ok(None));
    let s = job_state_from_hash(&pairs(&[("job_id", "j"), ("status", "queued")])).unwrap();
    assert_eq!(s.unwrap().status, JobStatus::Queued);
}

#[test]
fn non_empty_value_filters_empty_text() {
    assert_eq!(non_empty_value(None), None);
    assert_eq!(non_empty_value(Some(&String::new())), None);
    assert_eq!(non_empty_value(Some(&"x".to_string())), Some("x".to_string()));
}

#[test]
fn start_decisions() {
    let fresh = stream_job(1, false);
    assert_eq!(decide_start(&None, &fresh), StartDecision::Run);
    assert_eq!(
        decide_start(&Some(state(JobStatus::Completed, 0)), &fresh),
        StartDecision::SkipAndAck
    );
    assert_eq!(
        decide_start(&Some(state(JobStatus::DeadLettered, 1)), &fresh),
        StartDecision::SkipAndAck
    );
    assert_eq!(decide_start(&Some(state(JobStatus::Queued, 2)), &fresh), StartDecision::SkipAndAck);
    assert_eq!(decide_start(&Some(state(JobStatus::Running, 1)), &fresh), StartDecision::SkipAndAck);
    assert_eq!(
        decide_start(&Some(state(JobStatus::Running, 1)), &stream_job(1, true)),
        StartDecision::Run
    );
    assert_eq!(decide_start(&Some(state(JobStatus::Queued, 1)), &fresh), StartDecision::Run);
}

#[test]
fn first_stale_entry_picks_first_idle_enough() {
    let pending = vec![
        PendingEntry { id: "1-0".into(), last_delivered_ms: 10 },
        PendingEntry { id: "2-0".into(), last_delivered_ms: 30000 },
        PendingEntry { id: "3-0".into(), last_delivered_ms: 90000 },
    ];
    assert_eq!(first_stale_entry(&pending, 30000), Some(1));
    assert_eq!(first_stale_entry(&pending, 100000), None);
    assert_eq!(first_stale_entry(&Vec::new(), 0), None);
}

#[test]
fn first_stream_entry_takes_first_of_first_stream() {
    let e1 = StreamEntry { id: "1-0".into(), fields: Vec::new() };
    let e2 = StreamEntry { id: "2-0".into(), fields: Vec::new() };
    assert_eq!(first_stream_entry(vec![vec![e1.clone(), e2.clone()]]), Some(e1));
    assert_eq!(first_stream_entry(vec![vec![], vec![e2]]), None);
    assert_eq!(first_stream_entry(Vec::new()), None);
}

#[test]
fn entry_field_builders() {
    assert_eq!(job_entry_fields("j", "{}"), pairs(&[("job_id", "j"), ("payload", "{}")]));
    assert_eq!(
        dlq_entry_fields("j", "{}", "boom", "3-0"),
        pairs(&[("job_id", "j"), ("payload", "{}"), ("error", "boom"), ("source_stream_id", "3-0")])
    );
    let corrupt = StreamEntry { id: "4-0".into(), fields: pairs(&[("other", "x")]) };
    assert_eq!(
        corrupt_entry_dlq_fields(&corrupt, "bad"),
        pairs(&[("job_id", "unknown"), ("payload", ""), ("error", "bad"), ("source_stream_id", "4-0")])
    );
    assert_eq!(
        session_hash_fields("s1", "enc", 77),
        pairs(&[("session_id", "s1"), ("encrypted_api_key", "enc"), ("created_at_ms", "77")])
    );
}

#[test]
fn busygroup_detection() {
    assert!(is_existing_group_error("BUSYGROUP Consumer Group name already exists"));
    assert!(is_existing_group_error("An error: BUSYGROUP"));
    assert!(!is_existing_group_error("NOGROUP"));
    assert!(!is_existing_group_error(""));
}

#[test]
fn decrypt_rejects_bad_input() {
    let cipher = build_session_cipher("0123456789abcdef0123456789abcdef").unwrap();
    assert_eq!(
        decrypt_api_key(&cipher, "not base64!"),
        Err(AppError::Crypto("stored session API key is not valid base64".into()))
    );
    assert_eq!(
        decrypt_api_key(&cipher, "AAAA"),
        Err(AppError::Crypto("stored session API key payload is malformed".into()))
    );
    let other = build_session_cipher("another secret that is long enough!!").unwrap();
    let sealed = encrypt_api_key(&cipher, "sk-abc").unwrap();
    assert_eq!(
        decrypt_api_key(&other, &sealed),
        Err(AppError::Crypto("failed to decrypt session API key".into()))
    );
}

#[test]
fn sealing_uses_fresh_nonces_and_adds_nonce_and_tag() {
    let cipher = build_session_cipher("0123456789abcdef0123456789abcdef").unwrap();
    let a = encrypt_api_key(&cipher, "sk-é").unwrap();
    let b = encrypt_api_key(&cipher, "sk-é").unwrap();
    assert_ne!(a, b);
    // 12 nonce bytes + 5 key bytes + 16 tag bytes = 33 bytes = 44 base64 characters.
    assert_eq!(a.len(), 44);
    assert_eq!(decrypt_api_key(&cipher, &b).unwrap(), "sk-é");
}

#[test]
fn unseal_session_api_key_requires_a_session() {
    let cipher = build_session_cipher("0123456789abcdef0123456789abcdef").unwrap();
    assert_eq!(
        unseal_session_api_key(&cipher, None),
        Err(AppError::Unauthorized("session is invalid or expired".into()))
    );
    let sealed = encrypt_api_key(&cipher, "key").unwrap();
    assert_eq!(unseal_session_api_key(&cipher, Some(sealed)), Ok("key".to_string()));
}

#[test]
fn sealing_needs_a_twelve_byte_nonce() {
    let cipher = build_session_cipher("0123456789abcdef0123456789abcdef").unwrap();
    let nonce_error = Err(AppError::Crypto("failed to generate session API key nonce".into()));
    assert_eq!(seal_api_key(&cipher, None, "sk"), nonce_error);
    assert_eq!(seal_api_key(&cipher, Some(vec![0u8; 11]), "sk"), nonce_error);
    let a = seal_api_key(&cipher, Some(vec![7u8; 12]), "sk-test-123").unwrap();
    let b = seal_api_key(&cipher, Some(vec![7u8; 12]), "sk-test-123").unwrap();
    assert_eq!(a, b);
    assert_ne!(a, "sk-test-123");
    assert_eq!(a.len(), (4 * (28 + 11) + 2) / 3);
    assert_eq!(decrypt_api_key(&cipher, &a).unwrap(), "sk-test-123");
}

#[test]
fn clock_readings_in_milliseconds() {
    assert_eq!(millis_since_epoch(None), 0);
    assert_eq!(millis_since_epoch(Some(std::time::Duration::from_millis(1234))), 1234);
    assert_eq!(millis_since_epoch(Some(std::time::Duration::from_secs(2))), 2000);
    // The clock reads after September 2020.
    assert!(now_ms() > 1_600_000_000_000);
}

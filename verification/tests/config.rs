use std::time::Duration;

use ai_debug_agent::config::helper::{Config, EnvVars, RuntimeRole};
use ai_debug_agent::errors::error::AppError;

const SECRET: &str = "0123456789abcdef0123456789abcdef";

fn env(items: &[(&str, &str)]) -> EnvVars {
    EnvVars { entries: items.iter().map(|(k, v)| (k.to_string(), v.to_string())).collect() }
}

fn config_error(items: &[(&str, &str)]) -> String {
    match Config::from_env(&RuntimeRole::All, &env(items)) {
        Err(AppError::Config(m)) => m,
        other => panic!("expected a configuration error, got {:?}", other),
    }
}

#[test]
fn roles_from_arguments() {
    assert_eq!(RuntimeRole::from_args(vec![]), Ok(RuntimeRole::All));
    assert_eq!(RuntimeRole::from_args(vec!["api".into()]), Ok(RuntimeRole::Api));
    assert_eq!(RuntimeRole::from_args(vec!["worker".into(), "x".into()]), Ok(RuntimeRole::Worker));
    assert_eq!(RuntimeRole::from_args(vec!["all".into()]), Ok(RuntimeRole::All));
    assert_eq!(
        RuntimeRole::from_args(vec!["web".into()]),
        Err(AppError::Config("unsupported runtime role 'web', expected api|worker|all".into()))
    );
    assert!(RuntimeRole::Worker.runs_workers());
    assert!(RuntimeRole::All.runs_workers());
    assert!(!RuntimeRole::Api.runs_workers());
}

#[test]
fn defaults_apply_when_unset() {
    let c = Config::from_env(&RuntimeRole::All, &env(&[("SESSION_SECRET", SECRET)])).unwrap();
    assert_eq!(c.redis_url, "redis://127.0.0.1:6379/");
    assert_eq!(c.bind_addr, "0.0.0.0:3000");
    assert_eq!(c.worker_count, 5);
    assert_eq!(c.max_concurrent_jobs, 3);
    assert_eq!(c.max_retries, 3);
    assert_eq!(c.job_stream, "job_stream");
    assert_eq!(c.dlq_stream, "job_dlq_stream");
    assert_eq!(c.consumer_group, "job_workers");
    assert_eq!(c.read_block_ms, 5000);
    assert_eq!(c.claim_idle_ms, 30000);
    assert_eq!(c.job_status_ttl_secs, 86400);
    assert_eq!(c.session_ttl_secs, 86400);
    assert_eq!(c.session_secret, SECRET);
    assert_eq!(c.ai_endpoint, "https://api.openai.com/v1/chat/completions");
    assert_eq!(c.ai_model, "gpt-4o-mini");
    assert_eq!(c.ai_timeout_secs, 30);
    assert_eq!(c.ai_timeout(), Duration::from_secs(30));
}

#[test]
fn values_are_read_from_the_environment() {
    let c = Config::from_env(
        &RuntimeRole::Worker,
        &env(&[
            ("SESSION_SECRET", SECRET),
            ("PORT", "8080"),
            ("WORKER_COUNT", "2"),
            ("MAX_RETRIES", "+9"),
            ("AI_TIMEOUT_SECS", "7"),
            ("JOB_STREAM", "jobs"),
        ]),
    )
    .unwrap();
    assert_eq!(c.bind_addr, "0.0.0.0:8080");
    assert_eq!(c.worker_count, 2);
    assert_eq!(c.max_retries, 9);
    assert_eq!(c.job_stream, "jobs");
    assert_eq!(c.ai_timeout(), Duration::from_secs(7));
    let c2 = Config::from_env(
        &RuntimeRole::Api,
        &env(&[("SESSION_SECRET", SECRET), ("PORT", "8080"), ("BIND_ADDR", "127.0.0.1:1")]),
    )
    .unwrap();
    assert_eq!(c2.bind_addr, "127.0.0.1:1");
}

#[test]
fn refused_settings() {
    assert_eq!(
        config_error(&[]),
        "SESSION_SECRET must be set and at least 32 characters long"
    );
    assert_eq!(
        config_error(&[("SESSION_SECRET", "short")]),
        "SESSION_SECRET must be set and at least 32 characters long"
    );
    assert_eq!(
        config_error(&[("SESSION_SECRET", SECRET), ("WORKER_COUNT", "0")]),
        "WORKER_COUNT must be > 0"
    );
    assert_eq!(
        config_error(&[("SESSION_SECRET", SECRET), ("MAX_CONCURRENT_JOBS", "0")]),
        "MAX_CONCURRENT_JOBS must be > 0"
    );
    assert_eq!(
        config_error(&[("SESSION_SECRET", SECRET), ("WORKER_COUNT", "-1")]),
        "WORKER_COUNT must be a positive integer: invalid digit found in string"
    );
    assert_eq!(
        config_error(&[("MAX_RETRIES", "4294967296")]),
        "MAX_RETRIES must be a positive integer: number too large to fit in target type"
    );
    assert_eq!(
        config_error(&[("READ_BLOCK_MS", "")]),
        "READ_BLOCK_MS must be a positive integer: cannot parse integer from empty string"
    );
    // A parse failure is reported before a short secret.
    assert_eq!(
        config_error(&[("SESSION_SECRET", "x"), ("AI_TIMEOUT_SECS", "soon")]),
        "AI_TIMEOUT_SECS must be a positive integer: invalid digit found in string"
    );
}

#[test]
fn secret_length_counts_bytes() {
    // 16 two-byte characters make 32 bytes.
    let secret = "éééééééééééééééé";
    assert!(Config::from_env(&RuntimeRole::All, &env(&[("SESSION_SECRET", secret)])).is_ok());
}

use ai_debug_agent::errors::error::AppError;

#[test]
fn messages_follow_the_error_kind() {
    assert_eq!(AppError::Redis("down".into()).message(), "Redis error: down");
    assert_eq!(AppError::NotFound("job-1".into()).message(), "Job not found: job-1");
    assert_eq!(
        AppError::AiStatus { status: 429, body: "slow down".into() }.message(),
        "AI provider returned HTTP 429: slow down"
    );
    assert_eq!(
        AppError::Config("bad".into()).message(),
        "Runtime configuration error: bad"
    );
    assert_eq!(AppError::Crypto("x".into()).message(), "Session crypto error: x");
}

#[test]
fn status_codes() {
    assert_eq!(AppError::Redis("".into()).status_code(), 500);
    assert_eq!(AppError::Parse("".into()).status_code(), 400);
    assert_eq!(AppError::Http("".into()).status_code(), 502);
    assert_eq!(AppError::NotFound("".into()).status_code(), 404);
    assert_eq!(AppError::Unauthorized("".into()).status_code(), 401);
    assert_eq!(AppError::AiStatus { status: 429, body: "".into() }.status_code(), 429);
    assert_eq!(AppError::AiStatus { status: 500, body: "".into() }.status_code(), 502);
    assert_eq!(AppError::AiResponse("".into()).status_code(), 502);
}

#[test]
fn retryable_errors() {
    assert!(AppError::Redis("".into()).is_retryable());
    assert!(AppError::Http("".into()).is_retryable());
    assert!(AppError::Io("".into()).is_retryable());
    assert!(AppError::AiStatus { status: 408, body: "".into() }.is_retryable());
    assert!(AppError::AiStatus { status: 429, body: "".into() }.is_retryable());
    assert!(AppError::AiStatus { status: 500, body: "".into() }.is_retryable());
    assert!(AppError::AiStatus { status: 599, body: "".into() }.is_retryable());
    assert!(!AppError::AiStatus { status: 600, body: "".into() }.is_retryable());
    assert!(!AppError::AiStatus { status: 401, body: "".into() }.is_retryable());
    assert!(!AppError::Parse("".into()).is_retryable());
    assert!(!AppError::QueueData("".into()).is_retryable());
    assert!(!AppError::Unauthorized("".into()).is_retryable());
}

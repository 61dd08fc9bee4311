use ai_debug_agent::errors::error::AppError;
use ai_debug_agent::handlers::analyze::{expired_session, session_id_from_header};
use ai_debug_agent::handlers::result::job_state_or_not_found;
use ai_debug_agent::handlers::session::api_key_from_request;
use ai_debug_agent::models::job::{JobState, JobStatus};
use ai_debug_agent::models::session::{
    CreateSessionRequest, CreateSessionResponse, DeleteSessionResponse,
};

#[test]
fn session_header_is_trimmed_and_required() {
    assert_eq!(session_id_from_header(Some("  abc ")), Ok("abc".to_string()));
    let missing = Err(AppError::Unauthorized("missing x-session-id header".to_string()));
    assert_eq!(session_id_from_header(Some("   ")), missing);
    assert_eq!(session_id_from_header(None), missing);
    assert_eq!(
        expired_session(),
        AppError::Unauthorized("session is invalid or expired".to_string())
    );
}

#[test]
fn api_key_is_trimmed_and_required() {
    let ok = api_key_from_request(&CreateSessionRequest { openai_api_key: " sk-1\n".into() });
    assert_eq!(ok, Ok("sk-1".to_string()));
    let blank = api_key_from_request(&CreateSessionRequest { openai_api_key: "\t".into() });
    assert_eq!(
        blank,
        Err(AppError::Unauthorized("openai_api_key must not be empty".to_string()))
    );
}

#[test]
fn session_responses() {
    let created = CreateSessionResponse::opened("s".into(), 60);
    assert_eq!(created.expires_in_secs, 60);
    assert!(DeleteSessionResponse::after_delete("s".into(), 1).deleted);
    assert!(!DeleteSessionResponse::after_delete("s".into(), 0).deleted);
}

#[test]
fn results_are_found_or_not_found() {
    let state = JobState {
        job_id: "j".into(),
        status: JobStatus::Running,
        retry: 0,
        result: None,
        error: None,
        updated_at_ms: 3,
    };
    assert_eq!(job_state_or_not_found("j".into(), Some(state.clone())), Ok(state));
    assert_eq!(
        job_state_or_not_found("missing".into(), None),
        Err(AppError::NotFound("missing".into()))
    );
}

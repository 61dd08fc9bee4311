//! Request and answer bodies of the session endpoints.
use vstd::prelude::*;

verus! {

/// A client's request to open a session with its AI provider key.
#[derive(Debug, Clone, PartialEq, Eq)]
pub struct CreateSessionRequest {
    pub openai_api_key: String,
}

/// The new session's id and how long it lives.
#[derive(Debug, Clone, PartialEq, Eq)]
pub struct CreateSessionResponse {
    pub session_id: String,
    pub expires_in_secs: usize,
}

/// Whether the session was there to delete.
#[derive(Debug, Clone, PartialEq, Eq)]
pub struct DeleteSessionResponse {
    pub session_id: String,
    pub deleted: bool,
}

} // verus!

//! Rules of the session endpoints.
use vstd::prelude::*;

use crate::errors::error::AppError;
use crate::models::session::{CreateSessionRequest, CreateSessionResponse, DeleteSessionResponse};
use crate::text::{owned, str_chars, string_from_chars, trim_chars, trim_spec};

verus! {

/// The message when a session request carries no key.
pub open spec fn empty_key_message() -> Seq<char> {
    "openai_api_key must not be empty"@
}

/// The API key a session is opened with: the requested key without
/// surrounding whitespace. Fails as unauthorized when that is blank.
pub fn api_key_from_request(request: &CreateSessionRequest) -> (res: Result<String, AppError>)
    ensures
        trim_spec(request.openai_api_key@).len() > 0 ==> (res matches Ok(k) && k@ == trim_spec(
            request.openai_api_key@,
        )),
        trim_spec(request.openai_api_key@).len() == 0 ==> (res matches Err(e) && e is Unauthorized
            && e->Unauthorized_0@ == empty_key_message()),
{
    let chars = str_chars(request.openai_api_key.as_str());
    let trimmed = trim_chars(&chars);
    if trimmed.len() == 0 {
        Err(AppError::Unauthorized(owned("openai_api_key must not be empty")))
    } else {
        Ok(string_from_chars(&trimmed))
    }
}

impl CreateSessionResponse {
    /// The answer for a session opened under `session_id`, stored for
    /// `expires_in_secs` seconds.
    pub fn opened(session_id: String, expires_in_secs: usize) -> (res: Self)
        ensures
            res.session_id == session_id,
            res.expires_in_secs == expires_in_secs,
    {
        CreateSessionResponse { session_id, expires_in_secs }
    }
}

impl DeleteSessionResponse {
    /// The answer to a deletion: whether at least one stored key was removed.
    pub fn after_delete(session_id: String, deleted_count: usize) -> (res: Self)
        ensures
            res.session_id == session_id,
            res.deleted == (deleted_count > 0),
    {
        DeleteSessionResponse { session_id, deleted: deleted_count > 0 }
    }
}

} // verus!

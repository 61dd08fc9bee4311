//! Rules of the log submission endpoint.
use vstd::prelude::*;

use crate::errors::error::AppError;
use crate::text::{owned, str_chars, string_from_chars, trim_chars, trim_spec};

verus! {

/// The message when a submission names no session.
pub open spec fn missing_session_message() -> Seq<char> {
    "missing x-session-id header"@
}

/// The session a submission names: the `x-session-id` header without
/// surrounding whitespace. Fails as unauthorized when the header is absent
/// (or not text) or blank.
pub fn session_id_from_header(value: Option<&str>) -> (res: Result<String, AppError>)
    ensures
        match value {
            Some(v) if trim_spec(v@).len() > 0 => res matches Ok(s) && s@ == trim_spec(v@),
            _ => res matches Err(e) && e is Unauthorized && e->Unauthorized_0@
                == missing_session_message(),
        },
{
    match value {
        None => Err(AppError::Unauthorized(owned("missing x-session-id header"))),
        Some(v) => {
            let chars = str_chars(v);
            let trimmed = trim_chars(&chars);
            if trimmed.len() == 0 {
                Err(AppError::Unauthorized(owned("missing x-session-id header")))
            } else {
                Ok(string_from_chars(&trimmed))
            }
        },
    }
}

/// The message for a session that is unknown or has expired.
pub open spec fn expired_session_message() -> Seq<char> {
    "session is invalid or expired"@
}

/// The answer when the named session does not exist.
pub fn expired_session() -> (res: AppError)
    ensures
        res is Unauthorized && res->Unauthorized_0@ == expired_session_message(),
{
    AppError::Unauthorized(owned("session is invalid or expired"))
}

} // verus!

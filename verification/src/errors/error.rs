//! The service's error type: what went wrong, the text shown for it,
//! the HTTP status it is answered with, and whether the failed work is
//! worth another attempt.
use vstd::prelude::*;
use vstd::string::*;

use crate::text::{concat2, decimal, decimal_string, owned};

verus! {

/// Every failure the service reports. Failures that come from a client
/// library (Redis, JSON, HTTP, I/O) carry that library's message.
#[derive(Debug, Clone, PartialEq, Eq)]
pub enum AppError {
    Redis(String),
    Parse(String),
    Http(String),
    Config(String),
    NotFound(String),
    QueueData(String),
    AiStatus { status: u16, body: String },
    AiResponse(String),
    Io(String),
    Unauthorized(String),
    Crypto(String),
}

pub const HTTP_BAD_REQUEST: u16 = 400;

pub const HTTP_UNAUTHORIZED: u16 = 401;

pub const HTTP_NOT_FOUND: u16 = 404;

pub const HTTP_REQUEST_TIMEOUT: u16 = 408;

pub const HTTP_TOO_MANY_REQUESTS: u16 = 429;

pub const HTTP_INTERNAL_SERVER_ERROR: u16 = 500;

pub const HTTP_BAD_GATEWAY: u16 = 502;

impl AppError {
    /// The text shown for the error.
    pub open spec fn spec_message(&self) -> Seq<char> {
        match self {
            AppError::Redis(m) => "Redis error: "@ + m@,
            AppError::Parse(m) => "Parse error: "@ + m@,
            AppError::Http(m) => "HTTP error: "@ + m@,
            AppError::Config(m) => "Runtime configuration error: "@ + m@,
            AppError::NotFound(m) => "Job not found: "@ + m@,
            AppError::QueueData(m) => "Queue data error: "@ + m@,
            AppError::AiStatus { status, body } => "AI provider returned HTTP "@ + decimal(
                *status as nat,
            ) + ": "@ + body@,
            AppError::AiResponse(m) => "Invalid AI response: "@ + m@,
            AppError::Io(m) => "I/O error: "@ + m@,
            AppError::Unauthorized(m) => "Unauthorized: "@ + m@,
            AppError::Crypto(m) => "Session crypto error: "@ + m@,
        }
    }

    /// Whether the failed work may succeed when tried again: transport
    /// failures, and AI provider answers 408, 429 and 5xx.
    pub open spec fn spec_is_retryable(&self) -> bool {
        match self {
            AppError::Redis(_) | AppError::Http(_) | AppError::Io(_) => true,
            AppError::AiStatus { status, .. } => *status == HTTP_TOO_MANY_REQUESTS || *status
                == HTTP_REQUEST_TIMEOUT || (500 <= *status <= 599),
            _ => false,
        }
    }

    /// The HTTP status the API answers the error with.
    pub open spec fn spec_status_code(&self) -> u16 {
        match self {
            AppError::Redis(_) => HTTP_INTERNAL_SERVER_ERROR,
            AppError::Parse(_) => HTTP_BAD_REQUEST,
            AppError::Http(_) => HTTP_BAD_GATEWAY,
            AppError::Config(_) => HTTP_INTERNAL_SERVER_ERROR,
            AppError::NotFound(_) => HTTP_NOT_FOUND,
            AppError::QueueData(_) => HTTP_INTERNAL_SERVER_ERROR,
            AppError::AiStatus { status, .. } => if *status == HTTP_TOO_MANY_REQUESTS {
                HTTP_TOO_MANY_REQUESTS
            } else {
                HTTP_BAD_GATEWAY
            },
            AppError::AiResponse(_) => HTTP_BAD_GATEWAY,
            AppError::Io(_) => HTTP_INTERNAL_SERVER_ERROR,
            AppError::Unauthorized(_) => HTTP_UNAUTHORIZED,
            AppError::Crypto(_) => HTTP_INTERNAL_SERVER_ERROR,
        }
    }

    /// Retryable are exactly the Redis, HTTP and I/O failures, and AI
    /// provider answers 408, 429 and every status from 500 to 599.
    pub proof fn lemma_retryable_errors(self)
        ensures
            self.spec_is_retryable() <==> (self is Redis || self is Http || self is Io || (self is AiStatus
                && (self->status == 408 || self->status == 429 || (500 <= self->status
                && self->status <= 599)))),
    {
    }

    pub fn is_retryable(&self) -> (res: bool)
        ensures
            res == self.spec_is_retryable(),
    {
        match self {
            AppError::Redis(_) | AppError::Http(_) | AppError::Io(_) => true,
            AppError::AiStatus { status, .. } => {
                *status == HTTP_TOO_MANY_REQUESTS || *status == HTTP_REQUEST_TIMEOUT || (500
                    <= *status && *status <= 599)
            },
            AppError::Parse(_)
            | AppError::Config(_)
            | AppError::NotFound(_)
            | AppError::QueueData(_)
            | AppError::AiResponse(_)
            | AppError::Unauthorized(_)
            | AppError::Crypto(_) => false,
        }
    }

    pub fn status_code(&self) -> (res: u16)
        ensures
            res == self.spec_status_code(),
    {
        match self {
            AppError::Redis(_) => HTTP_INTERNAL_SERVER_ERROR,
            AppError::Parse(_) => HTTP_BAD_REQUEST,
            AppError::Http(_) => HTTP_BAD_GATEWAY,
            AppError::Config(_) => HTTP_INTERNAL_SERVER_ERROR,
            AppError::NotFound(_) => HTTP_NOT_FOUND,
            AppError::QueueData(_) => HTTP_INTERNAL_SERVER_ERROR,
            AppError::AiStatus { status, .. } => {
                if *status == HTTP_TOO_MANY_REQUESTS {
                    HTTP_TOO_MANY_REQUESTS
                } else {
                    HTTP_BAD_GATEWAY
                }
            },
            AppError::AiResponse(_) => HTTP_BAD_GATEWAY,
            AppError::Io(_) => HTTP_INTERNAL_SERVER_ERROR,
            AppError::Unauthorized(_) => HTTP_UNAUTHORIZED,
            AppError::Crypto(_) => HTTP_INTERNAL_SERVER_ERROR,
        }
    }

    /// The text shown for the error (its `Display` form).
    pub fn message(&self) -> (res: String)
        ensures
            res@ == self.spec_message(),
    {
        match self {
            AppError::Redis(m) => concat2("Redis error: ", m.as_str()),
            AppError::Parse(m) => concat2("Parse error: ", m.as_str()),
            AppError::Http(m) => concat2("HTTP error: ", m.as_str()),
            AppError::Config(m) => concat2("Runtime configuration error: ", m.as_str()),
            AppError::NotFound(m) => concat2("Job not found: ", m.as_str()),
            AppError::QueueData(m) => concat2("Queue data error: ", m.as_str()),
            AppError::AiStatus { status, body } => {
                let mut s = owned("AI provider returned HTTP ");
                let code = decimal_string(*status as u64);
                s.append(code.as_str());
                s.append(": ");
                s.append(body.as_str());
                s
            },
            AppError::AiResponse(m) => concat2("Invalid AI response: ", m.as_str()),
            AppError::Io(m) => concat2("I/O error: ", m.as_str()),
            AppError::Unauthorized(m) => concat2("Unauthorized: ", m.as_str()),
            AppError::Crypto(m) => concat2("Session crypto error: ", m.as_str()),
        }
    }
}

} // verus!

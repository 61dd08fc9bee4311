//! The exchange with the AI provider: the chat request built for a job's
//! logs, and the analysis read from the provider's answer.
use vstd::prelude::*;

use crate::errors::error::AppError;
use crate::text::{
    is_whitespace, lemma_trim_keeps_inner_text, owned, str_chars, string_from_chars, trim_chars,
    trim_spec,
};

verus! {

/// One message of a chat request.
#[derive(Debug, Clone, PartialEq, Eq)]
pub struct ChatMessage {
    pub role: String,
    pub content: String,
}

/// A chat completion request: the model and the conversation.
#[derive(Debug, Clone, PartialEq, Eq)]
pub struct ChatCompletionRequest {
    pub model: String,
    pub messages: Vec<ChatMessage>,
}

/// The message part of a provider's choice.
#[derive(Debug, Clone, PartialEq, Eq)]
pub struct ChatCompletionMessage {
    pub content: String,
}

/// One choice of a provider's answer.
#[derive(Debug, Clone, PartialEq, Eq)]
pub struct ChatChoice {
    pub message: ChatCompletionMessage,
}

/// A provider's answer to a chat request.
#[derive(Debug, Clone, PartialEq, Eq)]
pub struct ChatCompletionResponse {
    pub choices: Vec<ChatChoice>,
}

/// The instruction that frames every analysis.
pub open spec fn system_prompt() -> Seq<char> {
    "You are a backend debugging expert. Return a concise root-cause analysis and concrete remediation steps."@
}

impl ChatCompletionRequest {
    /// The request that asks `model` to analyse `logs`: the system
    /// instruction, then the logs as the user's message.
    pub fn for_logs(model: &str, logs: &str) -> (res: Self)
        ensures
            res.model@ == model@,
            res.messages@.len() == 2,
            res.messages@[0].role@ == "system"@,
            res.messages@[0].content@ == system_prompt(),
            res.messages@[1].role@ == "user"@,
            res.messages@[1].content@ == logs@,
    {
        let mut messages: Vec<ChatMessage> = Vec::new();
        messages.push(
            ChatMessage {
                role: owned("system"),
                content: owned(
                    "You are a backend debugging expert. Return a concise root-cause analysis and concrete remediation steps.",
                ),
            },
        );
        messages.push(ChatMessage { role: owned("user"), content: owned(logs) });
        ChatCompletionRequest { model: owned(model), messages }
    }
}

/// The message when the answer holds no usable analysis.
pub open spec fn missing_content_message() -> Seq<char> {
    "provider response did not contain choices[0].message.content"@
}

/// The analysis in an answer: the first choice's text without surrounding
/// whitespace, unless there is no choice or that text is blank.
pub open spec fn analysis_spec(response: ChatCompletionResponse) -> Option<Seq<char>> {
    if response.choices@.len() == 0 {
        None
    } else {
        let t = trim_spec(response.choices@[0].message.content@);
        if t.len() == 0 {
            None
        } else {
            Some(t)
        }
    }
}

/// The analysis is the first choice's whole text from its first to its last
/// character that is not whitespace, with nothing cut or changed; there is
/// none when there is no choice or that text is all whitespace.
pub proof fn lemma_analysis_is_whole_trimmed_text(response: ChatCompletionResponse)
    ensures
        response.choices@.len() == 0 ==> analysis_spec(response) is None,
        response.choices@.len() > 0 ==> ({
            let c = response.choices@[0].message.content@;
            &&& (forall|k: int| 0 <= k < c.len() ==> is_whitespace(#[trigger] c[k]))
                ==> analysis_spec(response) is None
            &&& (exists|k: int| 0 <= k < c.len() && !is_whitespace(#[trigger] c[k])) ==> exists|
                i: int,
                j: int,
            |
                0 <= i < j <= c.len() && analysis_spec(response) == Some(#[trigger] c.subrange(i, j))
                    && (forall|k: int| 0 <= k < i ==> is_whitespace(#[trigger] c[k])) && (forall|
                    k: int,
                |
                    j <= k < c.len() ==> is_whitespace(#[trigger] c[k])) && !is_whitespace(c[i])
                    && !is_whitespace(c[j - 1])
        }),
{
    if response.choices@.len() > 0 {
        let c = response.choices@[0].message.content@;
        lemma_trim_keeps_inner_text(c);
    }
}

/// The analysis in a provider's answer. Fails with an invalid AI response
/// error when there is no choice or the first one is blank.
pub fn parse_ai_response(response: ChatCompletionResponse) -> (res: Result<String, AppError>)
    ensures
        match res {
            Ok(s) => analysis_spec(response) == Some(s@),
            Err(e) => analysis_spec(response) is None && e is AiResponse && e->AiResponse_0@
                == missing_content_message(),
        },
{
    if response.choices.len() == 0 {
        return Err(
            AppError::AiResponse(
                owned("provider response did not contain choices[0].message.content"),
            ),
        );
    }
    let chars = str_chars(response.choices[0].message.content.as_str());
    let trimmed = trim_chars(&chars);
    if trimmed.len() == 0 {
        return Err(
            AppError::AiResponse(
                owned("provider response did not contain choices[0].message.content"),
            ),
        );
    }
    Ok(string_from_chars(&trimmed))
}

/// Whether an HTTP status is a success (2xx).
pub open spec fn spec_is_success_status(status: u16) -> bool {
    200 <= status <= 299
}

/// Whether an HTTP status is a success (2xx).
pub fn is_success_status(status: u16) -> (res: bool)
    ensures
        res == spec_is_success_status(status),
{
    200 <= status && status <= 299
}

/// The body of the provider's answer, read as its status calls for: the
/// text of an unsuccessful answer, or the parsed answer of a successful one
/// (or why it could not be parsed).
#[derive(Debug)]
pub enum AiAnswerBody {
    Text(String),
    Parsed(Result<ChatCompletionResponse, AppError>),
}

/// The outcome of an exchange with the provider. An unsuccessful status is
/// an AI status error with that status and the answer's text (empty when it
/// was not read as text); a successful answer gives its analysis as
/// `parse_ai_response` reads it, the parse failure, or, when it was read
/// only as text, the missing-content error.
pub fn ai_answer_result(status: u16, body: AiAnswerBody) -> (res: Result<String, AppError>)
    ensures
        !spec_is_success_status(status) ==> (res matches Err(e) && e is AiStatus && e->status
            == status && e->body@ == match body {
            AiAnswerBody::Text(t) => t@,
            AiAnswerBody::Parsed(_) => Seq::<char>::empty(),
        }),
        spec_is_success_status(status) ==> match body {
            AiAnswerBody::Parsed(Ok(r)) => match res {
                Ok(s) => analysis_spec(r) == Some(s@),
                Err(e) => analysis_spec(r) is None && e is AiResponse && e->AiResponse_0@
                    == missing_content_message(),
            },
            AiAnswerBody::Parsed(Err(e)) => res == Err::<String, AppError>(e),
            AiAnswerBody::Text(_) => res matches Err(e) && e is AiResponse && e->AiResponse_0@
                == missing_content_message(),
        },
{
    if !is_success_status(status) {
        let text = match body {
            AiAnswerBody::Text(t) => t,
            AiAnswerBody::Parsed(_) => String::new(),
        };
        return Err(AppError::AiStatus { status, body: text });
    }
    match body {
        AiAnswerBody::Parsed(Ok(r)) => parse_ai_response(r),
        AiAnswerBody::Parsed(Err(e)) => Err(e),
        AiAnswerBody::Text(_) => Err(
            AppError::AiResponse(
                owned("provider response did not contain choices[0].message.content"),
            ),
        ),
    }
}

} // verus!

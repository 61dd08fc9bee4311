use ai_debug_agent::errors::error::AppError;
use ai_debug_agent::services::ai_service::{
    parse_ai_response, ChatChoice, ChatCompletionMessage, ChatCompletionRequest,
    ChatCompletionResponse,
};

#[test]
fn parses_non_empty_ai_response() {
    let parsed = parse_ai_response(ChatCompletionResponse {
        choices: vec![ChatChoice {
            message: ChatCompletionMessage {
                content: " Investigate connection pool saturation. ".to_string(),
            },
        }],
    })
    .unwrap();

    assert_eq!(parsed, "Investigate connection pool saturation.");
}

#[test]
fn rejects_empty_ai_response() {
    let error = parse_ai_response(ChatCompletionResponse { choices: vec![] }).unwrap_err();
    assert!(matches!(error, AppError::AiResponse(_)));
}

#[test]
fn rejects_blank_first_choice_even_with_later_choices() {
    let error = parse_ai_response(ChatCompletionResponse {
        choices: vec![
            ChatChoice { message: ChatCompletionMessage { content: " \n\t\u{3000}".to_string() } },
            ChatChoice { message: ChatCompletionMessage { content: "later".to_string() } },
        ],
    })
    .unwrap_err();
    assert_eq!(
        error,
        AppError::AiResponse(
            "provider response did not contain choices[0].message.content".to_string()
        )
    );
}

#[test]
fn trims_unicode_whitespace_only_at_the_ends() {
    let parsed = parse_ai_response(ChatCompletionResponse {
        choices: vec![ChatChoice {
            message: ChatCompletionMessage { content: "\u{a0}\n a  b \r\n".to_string() },
        }],
    })
    .unwrap();
    assert_eq!(parsed, "a  b");
}

#[test]
fn request_for_logs_has_system_and_user_messages() {
    let req = ChatCompletionRequest::for_logs("gpt-4o-mini", "error: db down");
    assert_eq!(req.model, "gpt-4o-mini");
    assert_eq!(req.messages.len(), 2);
    assert_eq!(req.messages[0].role, "system");
    assert_eq!(
        req.messages[0].content,
        "You are a backend debugging expert. Return a concise root-cause analysis and concrete remediation steps."
    );
    assert_eq!(req.messages[1].role, "user");
    assert_eq!(req.messages[1].content, "error: db down");
}

use ai_debug_agent::services::ai_service::{ai_answer_result, is_success_status, AiAnswerBody};

fn answer(content: &str) -> ChatCompletionResponse {
    ChatCompletionResponse {
        choices: vec![ChatChoice { message: ChatCompletionMessage { content: content.to_string() } }],
    }
}

#[test]
fn unsuccessful_answers_become_status_errors() {
    assert!(is_success_status(200));
    assert!(is_success_status(299));
    assert!(!is_success_status(199));
    assert!(!is_success_status(300));
    assert_eq!(
        ai_answer_result(429, AiAnswerBody::Text("slow down".into())),
        Err(AppError::AiStatus { status: 429, body: "slow down".into() })
    );
    assert_eq!(
        ai_answer_result(500, AiAnswerBody::Parsed(Ok(answer("x")))),
        Err(AppError::AiStatus { status: 500, body: String::new() })
    );
}

#[test]
fn successful_answers_are_read() {
    assert_eq!(ai_answer_result(200, AiAnswerBody::Parsed(Ok(answer(" ok ")))), Ok("ok".to_string()));
    assert_eq!(
        ai_answer_result(201, AiAnswerBody::Parsed(Err(AppError::Http("bad json".into())))),
        Err(AppError::Http("bad json".into()))
    );
    assert!(matches!(
        ai_answer_result(200, AiAnswerBody::Text("plain".into())),
        Err(AppError::AiResponse(_))
    ));
}

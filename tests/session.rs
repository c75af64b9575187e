use llm_cli::codec::{request_to_json, response_from_json};
use llm_cli::error::{check_api_key, ChatError};
use llm_cli::history::{clear_history, undo_last_exchange};
use llm_cli::intent::{intent_from_trimmed, parse_intent, UserIntent};
use llm_cli::json::JsonValue;
use llm_cli::message::{OpenAIChoice, OpenAIMessage, OpenAIResponse};
use llm_cli::session::{ChatSession, GenerationConfig, TurnAction, TurnOutput};
use llm_cli::transport::{authorization_value, check_status, CHAT_ENDPOINT};

fn config() -> GenerationConfig {
    GenerationConfig {
        model: "meta-llama/llama-3-8b-instruct:free".to_string(),
        temperature: "0.7".to_string(),
        max_tokens: 800,
        top_p: "0.8".to_string(),
        n: 1,
    }
}

fn reply(content: &str) -> OpenAIResponse {
    OpenAIResponse { choices: vec![OpenAIChoice { message: OpenAIMessage::new("assistant", content) }] }
}

fn object(fields: Vec<(&str, JsonValue)>) -> JsonValue {
    JsonValue::Object(fields.into_iter().map(|(k, v)| (k.to_string(), v)).collect())
}

fn pairs(s: &ChatSession) -> Vec<(String, String)> {
    s.history.iter().map(|m| (m.role.clone(), m.content.clone())).collect()
}

fn send(s: &mut ChatSession, line: &str) -> llm_cli::codec::OpenAIRequest {
    match s.begin_turn(line) {
        TurnAction::Send(req) => req,
        _ => panic!("expected a request"),
    }
}

#[test]
fn hello_scenario() {
    let mut s = ChatSession::new(config());
    let req = send(&mut s, "Hello");
    let body = request_to_json(&req);
    let expected = JsonValue::Array(vec![object(vec![
        ("role", JsonValue::Str("user".to_string())),
        ("content", JsonValue::Str("Hello".to_string())),
    ])]);
    match &body {
        JsonValue::Object(fs) => assert_eq!(fs[1], ("messages".to_string(), expected)),
        _ => panic!("not an object"),
    }
    let answer = object(vec![(
        "choices",
        JsonValue::Array(vec![object(vec![(
            "message",
            object(vec![
                ("role", JsonValue::Str("assistant".to_string())),
                ("content", JsonValue::Str("Hi there".to_string())),
            ]),
        )])]),
    )]);
    let out = s.finish_turn(response_from_json(&answer));
    match out {
        TurnOutput::Reply(text) => assert!(text.contains("Hi there")),
        _ => panic!("expected a reply"),
    }
    assert_eq!(
        pairs(&s),
        vec![
            ("user".to_string(), "Hello".to_string()),
            ("assistant".to_string(), "Hi there".to_string())
        ]
    );
}

#[test]
fn server_error_scenario() {
    let mut s = ChatSession::new(config());
    send(&mut s, "Hello");
    let outcome = check_status(500, "server error".to_string()).map(|_| reply("unused"));
    match s.finish_turn(outcome) {
        TurnOutput::Failure(text) => {
            assert!(text.contains("failed"));
            assert!(text.contains("server error"));
        }
        _ => panic!("expected a failure notice"),
    }
    assert_eq!(pairs(&s), vec![("user".to_string(), "Hello".to_string())]);
}

#[test]
fn successful_turns_alternate() {
    let mut s = ChatSession::new(config());
    for i in 0..4 {
        let req = send(&mut s, &format!("question {}", i));
        assert_eq!(req.messages.len(), 2 * i + 1);
        s.finish_turn(Ok(reply(&format!("answer {}", i))));
    }
    assert_eq!(s.history.len(), 8);
    for (k, m) in s.history.iter().enumerate() {
        assert_eq!(m.role, if k % 2 == 0 { "user" } else { "assistant" });
    }
    assert_eq!(s.history[5].content, "answer 2");
}

#[test]
fn request_carries_config_and_trimmed_text() {
    let mut s = ChatSession::new(config());
    let req = send(&mut s, "  spaced out \n");
    assert_eq!(req.model, "meta-llama/llama-3-8b-instruct:free");
    assert_eq!(req.temperature.as_deref(), Some("0.7"));
    assert_eq!(req.max_tokens, Some(800));
    assert_eq!(req.top_p.as_deref(), Some("0.8"));
    assert_eq!(req.n, Some(1));
    assert_eq!(req.messages[0].content, "spaced out");
    assert_eq!(req.messages[0].role, "user");
}

#[test]
fn clear_empties_and_sends_nothing() {
    let mut s = ChatSession::new(config());
    send(&mut s, "a");
    s.finish_turn(Ok(reply("b")));
    send(&mut s, "c");
    assert!(matches!(s.begin_turn("clear"), TurnAction::Continue));
    assert_eq!(s.history.len(), 0);
    assert!(matches!(s.begin_turn("clear"), TurnAction::Continue));
    assert_eq!(s.history.len(), 0);
}

#[test]
fn undo_drops_two_and_sends_nothing() {
    let mut s = ChatSession::new(config());
    send(&mut s, "a");
    s.finish_turn(Ok(reply("b")));
    send(&mut s, "c");
    assert!(matches!(s.begin_turn("undo"), TurnAction::Continue));
    assert_eq!(pairs(&s), vec![("user".to_string(), "a".to_string())]);
    assert!(matches!(s.begin_turn("undo"), TurnAction::Continue));
    assert_eq!(s.history.len(), 0);
    assert!(matches!(s.begin_turn("undo"), TurnAction::Continue));
    assert_eq!(s.history.len(), 0);
}

#[test]
fn exit_and_blank_change_nothing() {
    let mut s = ChatSession::new(config());
    send(&mut s, "a");
    assert!(matches!(s.begin_turn(" exit "), TurnAction::Exit));
    assert!(matches!(s.begin_turn("   "), TurnAction::Continue));
    assert_eq!(s.history.len(), 1);
}

#[test]
fn commands_are_case_sensitive() {
    let mut s = ChatSession::new(config());
    let req = send(&mut s, "Exit");
    assert_eq!(req.messages[0].content, "Exit");
    send(&mut s, "undo it");
    assert_eq!(s.history.len(), 2);
}

#[test]
fn empty_choices_are_ignored() {
    let mut s = ChatSession::new(config());
    send(&mut s, "Hello");
    let out = s.finish_turn(Ok(OpenAIResponse { choices: vec![] }));
    assert!(matches!(out, TurnOutput::Silent));
    assert_eq!(s.history.len(), 1);
}

#[test]
fn only_first_choice_is_kept() {
    let mut s = ChatSession::new(config());
    send(&mut s, "Hello");
    let resp = OpenAIResponse {
        choices: vec![
            OpenAIChoice { message: OpenAIMessage::new("assistant", "one") },
            OpenAIChoice { message: OpenAIMessage::new("assistant", "two") },
        ],
    };
    s.finish_turn(Ok(resp));
    assert_eq!(s.history.len(), 2);
    assert_eq!(s.history[1].content, "one");
}

#[test]
fn transport_and_malformed_failures_keep_user_turn() {
    let mut s = ChatSession::new(config());
    send(&mut s, "Hello");
    match s.finish_turn(Err(ChatError::TransportError("connection reset".to_string()))) {
        TurnOutput::Failure(t) => assert_eq!(t, "transport failure: connection reset"),
        _ => panic!("expected a failure notice"),
    }
    match s.finish_turn(Err(ChatError::MalformedResponse)) {
        TurnOutput::Failure(t) => assert_eq!(t, "the response could not be decoded"),
        _ => panic!("expected a failure notice"),
    }
    assert_eq!(s.history.len(), 1);
}

#[test]
fn intents_of_lines() {
    assert!(matches!(parse_intent("exit"), UserIntent::Exit));
    assert!(matches!(parse_intent("\tclear\n"), UserIntent::ClearHistory));
    assert!(matches!(parse_intent("undo "), UserIntent::Undo));
    assert!(matches!(parse_intent(""), UserIntent::Blank));
    assert!(matches!(parse_intent("CLEAR"), UserIntent::SendMessage(ref t) if t == "CLEAR"));
    assert!(matches!(intent_from_trimmed(" exit".to_string()), UserIntent::SendMessage(_)));
}

#[test]
fn history_helpers() {
    let mut h = vec![OpenAIMessage::new("user", "a"), OpenAIMessage::new("assistant", "b"), OpenAIMessage::new("user", "c")];
    undo_last_exchange(&mut h);
    assert_eq!(h.len(), 1);
    assert_eq!(h[0].content, "a");
    clear_history(&mut h);
    assert!(h.is_empty());
}

#[test]
fn status_checks() {
    assert!(check_status(200, String::new()).is_ok());
    assert!(check_status(299, String::new()).is_ok());
    match check_status(404, "nope".to_string()) {
        Err(ChatError::RequestFailed { status, body }) => {
            assert_eq!(status, 404);
            assert_eq!(body, "nope");
        }
        _ => panic!("expected a failure"),
    }
    assert!(check_status(199, String::new()).is_err());
    assert!(check_status(300, String::new()).is_err());
}

#[test]
fn api_key_checks() {
    assert_eq!(check_api_key(Some("k".to_string())).ok(), Some("k".to_string()));
    assert!(matches!(check_api_key(Some(String::new())), Err(ChatError::ConfigurationError)));
    assert!(matches!(check_api_key(None), Err(ChatError::ConfigurationError)));
    assert_eq!(ChatError::ConfigurationError.describe(), "the API key is missing");
}

#[test]
fn header_and_endpoint() {
    assert_eq!(authorization_value("abc"), "Bearer abc");
    assert!(CHAT_ENDPOINT.starts_with("https://"));
}

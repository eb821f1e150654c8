use backend::entities::{AiEvent, ChatMessage, LogDetails, SimilarDocument};
use backend::pipeline::{Effect, Reply, Request, Session};

fn errors(effects: &[Effect]) -> Vec<String> {
    effects
        .iter()
        .filter_map(|e| match e {
            Effect::Emit(AiEvent::Error(m)) => Some(m.clone()),
            _ => None,
        })
        .collect()
}

fn last_call(effects: &[Effect]) -> Option<Request> {
    match effects.last() {
        Some(Effect::Call(r)) => Some(r.clone()),
        _ => None,
    }
}

fn happy_replies() -> Vec<Reply> {
    vec![
        Reply::Verdict(true),
        Reply::Verdict(true),
        Reply::Verdict(true),
        Reply::EmbeddingReady,
        Reply::Documents(vec![SimilarDocument { content: "doc".into() }]),
        Reply::Chats(vec![ChatMessage { user_prompt: "u".into(), ai_response: "a".into() }]),
        Reply::Generated("Mocked AI response".into()),
        Reply::Verdict(true),
    ]
}

#[test]
fn blank_prompt_is_refused_at_once() {
    for p in ["", "   \t\n  "] {
        let (s, effects) = Session::start("1.2.3.4".into(), p.into());
        assert!(s.is_finished());
        assert_eq!(effects.len(), 1);
        assert_eq!(errors(&effects), vec!["Prompt cannot be empty".to_string()]);
    }
}

#[test]
fn happy_path_streams_thinking_then_response() {
    let (mut s, effects) = Session::start("1.2.3.4".into(), "Hello world".into());
    assert!(matches!(&effects[0], Effect::Emit(AiEvent::Thinking(m)) if m == "Checking security rules and rate limits..."));
    assert!(matches!(last_call(&effects), Some(Request::CheckIpRateLimit { ip }) if ip == "1.2.3.4"));
    let mut all = effects;
    let mut calls = vec![];
    for r in happy_replies() {
        assert!(!s.is_finished());
        let out = s.advance(r);
        if let Some(c) = last_call(&out) {
            calls.push(c);
        }
        all.extend(out);
    }
    assert!(s.is_finished());
    assert!(errors(&all).is_empty());
    let thinking = all.iter().filter(|e| matches!(e, Effect::Emit(AiEvent::Thinking(_)))).count();
    assert_eq!(thinking, 7);
    assert!(matches!(all.last(), Some(Effect::Emit(AiEvent::Response(t))) if t == "Mocked AI response"));
    assert!(all.iter().any(|e| matches!(e, Effect::SaveChat { ip, prompt, response }
        if ip == "1.2.3.4" && prompt == "Hello world" && response == "Mocked AI response")));
    assert!(all.iter().any(|e| matches!(e, Effect::Log(l) if l.level == "INFO"
        && l.event == "AI Response Generated"
        && matches!(&l.details, LogDetails::Lengths { prompt_length: 11, response_length: 18, .. }))));
    assert!(matches!(&calls[0], Request::CheckGlobalRateLimit));
    assert!(matches!(&calls[1], Request::EvaluateGuardrail { text } if text == "Hello world"));
    assert!(matches!(&calls[2], Request::GetEmbedding { text } if text == "Hello world"));
    assert!(matches!(&calls[3], Request::GetSimilarDocuments { limit: 3 }));
    assert!(matches!(&calls[4], Request::GetRecentChats { limit: 5 }));
    match &calls[5] {
        Request::GenerateContent { prompt } => {
            assert!(prompt.contains("Context:\ndoc\n\n"));
            assert!(prompt.contains("Previous Chat History:\nUser: u\nAI: a\n\n"));
            assert!(prompt.ends_with("User Question: Hello world"));
        }
        other => panic!("unexpected {other:?}"),
    }
    assert!(matches!(&calls[6], Request::EvaluateGuardrail { text } if text == "Mocked AI response"));
    assert_eq!(calls.len(), 7);
    assert!(s.advance(Reply::Verdict(true)).is_empty());
}

fn fail_at(step: usize, reply: Reply) -> Vec<Effect> {
    let (mut s, _) = Session::start("9.9.9.9".into(), "q".into());
    let replies = happy_replies();
    for r in replies.into_iter().take(step) {
        s.advance(r);
    }
    let out = s.advance(reply);
    assert!(s.is_finished());
    assert!(s.advance(Reply::Failed).is_empty());
    out
}

#[test]
fn each_failure_has_its_message() {
    let cases: Vec<(usize, Reply, &str)> = vec![
        (0, Reply::Verdict(false), "Rate limit exceeded"),
        (0, Reply::Failed, "Internal database error"),
        (1, Reply::Verdict(false), "Global rate limit exceeded"),
        (1, Reply::Failed, "Internal database error"),
        (2, Reply::Verdict(false), "Input rejected by safety guidelines."),
        (2, Reply::Failed, "Failed to evaluate safety guidelines."),
        (3, Reply::Failed, "Failed to generate embedding."),
        (4, Reply::Failed, "Failed to search knowledge base."),
        (5, Reply::Failed, "Failed to fetch chat history."),
        (6, Reply::Failed, "Failed to generate response."),
        (7, Reply::Verdict(false), "Generated response rejected by safety guidelines."),
        (7, Reply::Failed, "Failed to verify output safety."),
    ];
    for (step, reply, msg) in cases {
        let out = fail_at(step, reply);
        assert_eq!(errors(&out), vec![msg.to_string()], "step {step}");
        assert!(matches!(out.last(), Some(Effect::Emit(AiEvent::Error(_)))));
    }
}

#[test]
fn guardrail_rejections_are_logged() {
    let out = fail_at(2, Reply::Verdict(false));
    assert!(matches!(&out[0], Effect::Log(l) if l.level == "WARNING" && l.event == "Input Guardrail Rejected"
        && matches!(&l.details, LogDetails::Prompt { ip, prompt } if ip == "9.9.9.9" && prompt == "q")));
    let out = fail_at(7, Reply::Verdict(false));
    assert!(matches!(&out[0], Effect::Log(l) if l.level == "WARNING" && l.event == "Output Guardrail Rejected"
        && matches!(&l.details, LogDetails::Exchange { response, .. } if response == "Mocked AI response")));
}

#[test]
fn reply_of_wrong_kind_counts_as_failure() {
    let out = fail_at(3, Reply::Verdict(true));
    assert_eq!(errors(&out), vec!["Failed to generate embedding.".to_string()]);
    let out = fail_at(0, Reply::Generated("x".into()));
    assert_eq!(errors(&out), vec!["Internal database error".to_string()]);
}

#[test]
fn service_rejects_empty_prompt() {
    let result = backend::pipeline::validate_prompt("".to_string());
    assert!(
        matches!(result, Err(backend::error::AppError::Validation(_))),
        "Expected Validation error, got: {result:?}"
    );
}

#[test]
fn service_rejects_whitespace_only_prompt() {
    let result = backend::pipeline::validate_prompt("   \t\n  ".to_string());
    assert!(
        matches!(result, Err(backend::error::AppError::Validation(_))),
        "Expected Validation error for whitespace prompt, got: {result:?}"
    );
}

#[test]
fn service_validation_error_message_is_non_empty() {
    let Err(backend::error::AppError::Validation(msg)) = backend::pipeline::validate_prompt("".to_string()) else {
        panic!("Expected Validation error");
    };
    assert!(!msg.is_empty(), "Validation message should not be empty");
}

#[test]
fn service_accepts_prompt_with_surrounding_whitespace() {
    let result = backend::pipeline::validate_prompt("  hello  ".to_string());
    assert!(result.is_ok(), "Padded prompt should be accepted");
    assert_eq!(result.unwrap().prompt, "  hello  ");
}

#[test]
fn progress_events_come_before_one_outcome() {
    for step in 0..8 {
        let (mut s, mut all) = Session::start("1.1.1.1".into(), "hi".into());
        for (k, r) in happy_replies().into_iter().enumerate() {
            if k == step {
                all.extend(s.advance(Reply::Failed));
                break;
            }
            all.extend(s.advance(r));
        }
        let events: Vec<&AiEvent> = all
            .iter()
            .filter_map(|e| match e {
                Effect::Emit(ev) => Some(ev),
                _ => None,
            })
            .collect();
        let thinking = events.iter().filter(|e| matches!(e, AiEvent::Thinking(_))).count();
        assert!(thinking >= 1 && thinking <= 7);
        assert_eq!(thinking, events.len() - 1);
        assert!(matches!(events.last(), Some(AiEvent::Error(_))));
    }
}

use backend::entities::PaginationQuery;
use backend::error::AppError;
use backend::gemini::{
    api_failure, embedding_request, endpoint, generation_request, require_api_key, response_text,
    ApiFailure, Candidate, CandidateContent, CandidatePart, GenerateContentResponse, EMBED_METHOD,
    EMBEDDING_MODEL, GENERATE_METHOD, GENERATION_MODEL,
};
use backend::web::{client_ip, client_may_ask, pagination, service_may_answer, sse_frame};

#[test]
fn client_ip_prefers_first_forwarded_entry() {
    assert_eq!(client_ip(Some("10.0.0.1"), Some(" 1.1.1.1 , 2.2.2.2")), "1.1.1.1");
    assert_eq!(client_ip(Some("10.0.0.1"), Some("3.3.3.3")), "3.3.3.3");
    assert_eq!(client_ip(Some("10.0.0.1"), Some("")), "");
    assert_eq!(client_ip(Some("10.0.0.1"), Some(",x")), "");
    assert_eq!(client_ip(Some("10.0.0.1"), None), "10.0.0.1");
    assert_eq!(client_ip(None, None), "unknown");
}

#[test]
fn pagination_defaults_and_bounds() {
    assert_eq!(pagination(PaginationQuery { page: None, limit: None }), (1, 20));
    assert_eq!(pagination(PaginationQuery { page: Some(0), limit: Some(0) }), (1, 1));
    assert_eq!(pagination(PaginationQuery { page: Some(-5), limit: Some(500) }), (1, 50));
    assert_eq!(pagination(PaginationQuery { page: Some(7), limit: Some(33) }), (7, 33));
}

#[test]
fn sse_frames() {
    assert_eq!(sse_frame("{\"Thinking\":\"x\"}"), "data: {\"Thinking\":\"x\"}\n\n");
    assert_eq!(sse_frame(""), "data: \n\n");
}

#[test]
fn daily_limits() {
    assert!(client_may_ask(0, "8.8.8.8"));
    assert!(!client_may_ask(1, "8.8.8.8"));
    assert!(client_may_ask(3, "127.0.0.1"));
    assert!(client_may_ask(3, "localhost"));
    assert!(service_may_answer(4));
    assert!(!service_may_answer(5));
}

#[test]
fn error_answers() {
    let v = AppError::Validation("bad prompt".into());
    assert_eq!(v.status(), 400);
    assert_eq!(v.error_response().error, "bad prompt");
    assert_eq!(v.message(), "Validation Error: bad prompt");
    let r = AppError::RateLimit;
    assert_eq!(r.status(), 429);
    assert_eq!(r.error_response().error, "Rate limit exceeded");
    assert_eq!(r.message(), "Rate Limit Exceeded");
    let i = AppError::Internal("mock provider error".into());
    assert_eq!(i.status(), 500);
    assert_eq!(i.error_response().error, "Internal server error");
    assert_eq!(i.message(), "Internal Server Error: mock provider error");
    let d = AppError::Database("pool closed".into());
    assert_eq!(d.status(), 500);
    assert_eq!(d.error_response().error, "Internal server error");
    assert_eq!(d.message(), "Database Error: pool closed");
}

#[test]
fn gemini_endpoints() {
    assert_eq!(
        endpoint(EMBEDDING_MODEL, EMBED_METHOD, "K"),
        "https://generativelanguage.googleapis.com/v1beta/models/gemini-embedding-001:embedContent?key=K"
    );
    assert_eq!(
        endpoint(GENERATION_MODEL, GENERATE_METHOD, "K"),
        "https://generativelanguage.googleapis.com/v1beta/models/gemini-2.5-flash:generateContent?key=K"
    );
}

#[test]
fn gemini_requests() {
    let e = embedding_request(EMBEDDING_MODEL, "hello");
    assert_eq!(e.model, "models/gemini-embedding-001");
    assert_eq!(e.task_type, "RETRIEVAL_DOCUMENT");
    assert_eq!(e.content.parts.len(), 1);
    assert_eq!(e.content.parts[0].text, "hello");
    let g = generation_request("p");
    assert_eq!(g.contents.len(), 1);
    assert_eq!(g.contents[0].parts[0].text, "p");
}

#[test]
fn gemini_response_text() {
    let none = GenerateContentResponse { candidates: None };
    assert_eq!(response_text(&none), "No response generated");
    let empty = GenerateContentResponse { candidates: Some(vec![]) };
    assert_eq!(response_text(&empty), "No response generated");
    let no_text = GenerateContentResponse {
        candidates: Some(vec![Candidate {
            content: Some(CandidateContent { parts: Some(vec![CandidatePart { text: None }]) }),
        }]),
    };
    assert_eq!(response_text(&no_text), "No response generated");
    let full = GenerateContentResponse {
        candidates: Some(vec![
            Candidate {
                content: Some(CandidateContent {
                    parts: Some(vec![CandidatePart { text: Some("first".into()) }, CandidatePart { text: Some("second".into()) }]),
                }),
            },
            Candidate { content: None },
        ]),
    };
    assert_eq!(response_text(&full), "first");
}

#[test]
fn gemini_errors() {
    match api_failure(ApiFailure::EmbeddingStatus, "quota") {
        AppError::Internal(m) => assert_eq!(m, "Embedding API error: quota"),
        other => panic!("{other:?}"),
    }
    match api_failure(ApiFailure::Parse, "eof") {
        AppError::Internal(m) => assert_eq!(m, "Parse error: eof"),
        other => panic!("{other:?}"),
    }
    assert!(matches!(require_api_key(None), Err(AppError::Validation(m)) if m == "API key not found"));
    assert_eq!(require_api_key(Some("k".into())).unwrap(), "k");
}

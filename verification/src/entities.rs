//! The data that the service exchanges with its clients, its store and its model.

use vstd::prelude::*;

verus! {

/// A stored exchange: what a user asked and what the assistant answered.
#[derive(Debug, Clone)]
pub struct ChatMessage {
    pub user_prompt: String,
    pub ai_response: String,
}

impl View for ChatMessage {
    type V = (Seq<char>, Seq<char>);

    open spec fn view(&self) -> (Seq<char>, Seq<char>) {
        (self.user_prompt@, self.ai_response@)
    }
}

/// A knowledge-base passage found close to a query.
#[derive(Debug, Clone)]
pub struct SimilarDocument {
    pub content: String,
}

impl View for SimilarDocument {
    type V = Seq<char>;

    open spec fn view(&self) -> Seq<char> {
        self.content@
    }
}

/// A request to generate AI content.
#[derive(Debug, Clone)]
pub struct AiRequest {
    /// The user prompt to send to the AI model.
    pub prompt: String,
}

/// An AI-generated response.
#[derive(Debug, Clone)]
pub struct AiResponse {
    /// The generated text content.
    pub content: String,
    /// The model that generated the response.
    pub model: String,
}

/// A progress or outcome event streamed to the client while a prompt is served.
#[derive(Debug, Clone)]
pub enum AiEvent {
    /// A step of the pipeline has started.
    Thinking(String),
    /// The request ended without an answer.
    Error(String),
    /// The request ended with this answer.
    Response(String),
}

/// The characters of an `AiEvent`.
pub enum Notice {
    Thinking(Seq<char>),
    Error(Seq<char>),
    Response(Seq<char>),
}

impl View for AiEvent {
    type V = Notice;

    open spec fn view(&self) -> Notice {
        match self {
            AiEvent::Thinking(m) => Notice::Thinking(m@),
            AiEvent::Error(m) => Notice::Error(m@),
            AiEvent::Response(m) => Notice::Response(m@),
        }
    }
}

/// The structured details of a log record.
#[derive(Debug, Clone)]
pub enum LogDetails {
    /// `{"ip": .., "prompt": ..}`
    Prompt { ip: String, prompt: String },
    /// `{"ip": .., "prompt": .., "response": ..}`
    Exchange { ip: String, prompt: String, response: String },
    /// `{"ip": .., "prompt_length": .., "response_length": ..}`, lengths in UTF-8 bytes.
    Lengths { ip: String, prompt_length: usize, response_length: usize },
}

/// The characters of `LogDetails`.
pub enum DetailsView {
    Prompt { ip: Seq<char>, prompt: Seq<char> },
    Exchange { ip: Seq<char>, prompt: Seq<char>, response: Seq<char> },
    Lengths { ip: Seq<char>, prompt_length: usize, response_length: usize },
}

impl View for LogDetails {
    type V = DetailsView;

    open spec fn view(&self) -> DetailsView {
        match self {
            LogDetails::Prompt { ip, prompt } => DetailsView::Prompt { ip: ip@, prompt: prompt@ },
            LogDetails::Exchange { ip, prompt, response } => DetailsView::Exchange {
                ip: ip@,
                prompt: prompt@,
                response: response@,
            },
            LogDetails::Lengths { ip, prompt_length, response_length } => DetailsView::Lengths {
                ip: ip@,
                prompt_length: *prompt_length,
                response_length: *response_length,
            },
        }
    }
}

/// A record for the audit log.
#[derive(Debug, Clone)]
pub struct LogEntry {
    pub level: String,
    pub event: String,
    pub details: LogDetails,
}

/// The characters of a `LogEntry`.
pub struct LogRecord {
    pub level: Seq<char>,
    pub event: Seq<char>,
    pub details: DetailsView,
}

impl View for LogEntry {
    type V = LogRecord;

    open spec fn view(&self) -> LogRecord {
        LogRecord { level: self.level@, event: self.event@, details: self.details@ }
    }
}

/// The body of `POST /ai/generate`.
#[derive(Debug, Clone)]
pub struct GenerateRequest {
    pub prompt: String,
}

/// The query of `GET /messages`.
#[derive(Debug, Clone, Copy)]
pub struct PaginationQuery {
    pub page: Option<i64>,
    pub limit: Option<i64>,
}

/// A generated answer, as JSON.
#[derive(Debug, Clone)]
pub struct GenerateResponse {
    pub content: String,
}

/// An error answer, as JSON.
#[derive(Debug, Clone)]
pub struct ErrorResponse {
    pub error: String,
}

} // verus!

//! The Gemini REST protocol as the service uses it: endpoints, request bodies, the
//! reading of generation answers, and the errors of the exchange.

use vstd::prelude::*;
use crate::error::AppError;

verus! {

/// The embedding model of the provider.
pub const EMBEDDING_MODEL: &'static str = "gemini-embedding-001";

/// The generation model of the provider.
pub const GENERATION_MODEL: &'static str = "gemini-2.5-flash";

/// The embedding model of the standalone helpers.
pub const LEGACY_EMBEDDING_MODEL: &'static str = "text-embedding-004";

/// The generation model of the standalone helpers.
pub const LEGACY_GENERATION_MODEL: &'static str = "gemini-2.5-flash-preview-09-2025";

/// The method that embeds content.
pub const EMBED_METHOD: &'static str = "embedContent";

/// The method that generates content.
pub const GENERATE_METHOD: &'static str = "generateContent";

/// `https://generativelanguage.googleapis.com/v1beta/models/<model>:<method>?key=<key>`.
pub open spec fn endpoint_spec(model: Seq<char>, method: Seq<char>, api_key: Seq<char>) -> Seq<char> {
    "https://generativelanguage.googleapis.com/v1beta/models/"@ + model + ":"@ + method + "?key="@
        + api_key
}

/// The URL of `method` on `model`, authenticated by `api_key`.
pub fn endpoint(model: &str, method: &str, api_key: &str) -> (res: String)
    ensures
        res@ == endpoint_spec(model@, method@, api_key@),
{
    let mut res = "https://generativelanguage.googleapis.com/v1beta/models/".to_owned();
    res.append(model);
    res.append(":");
    res.append(method);
    res.append("?key=");
    res.append(api_key);
    res
}

/// The refusal when no API key is configured.
pub open spec fn missing_key_text() -> Seq<char> {
    "API key not found"@
}

/// The API key, which must be configured.
pub fn require_api_key(configured: Option<String>) -> (res: Result<String, AppError>)
    ensures
        match configured {
            Some(k) => res matches Ok(r) && r@ == k@,
            None => res matches Err(AppError::Validation(m)) && m@ == missing_key_text(),
        },
{
    match configured {
        Some(k) => Ok(k),
        None => Err(AppError::Validation("API key not found".to_owned())),
    }
}

/// A text part of a message.
#[derive(Debug, Clone)]
pub struct ContentPart {
    pub text: String,
}

/// A message of one or more parts.
#[derive(Debug, Clone)]
pub struct EmbeddingContent {
    pub parts: Vec<ContentPart>,
}

/// The body of an `embedContent` request.
#[derive(Debug, Clone)]
pub struct EmbeddingRequest {
    pub model: String,
    pub content: EmbeddingContent,
    /// Serialized as `taskType`.
    pub task_type: String,
}

/// The body of a `generateContent` request.
#[derive(Debug, Clone)]
pub struct GenerateContentRequest {
    pub contents: Vec<EmbeddingContent>,
}

/// A message holding `text` alone.
pub open spec fn single_text(c: EmbeddingContent, text: Seq<char>) -> bool {
    c.parts@.len() == 1 && c.parts@[0].text@ == text
}

fn single_part(text: &str) -> (res: EmbeddingContent)
    ensures
        single_text(res, text@),
{
    let mut parts = Vec::new();
    parts.push(ContentPart { text: text.to_owned() });
    EmbeddingContent { parts }
}

/// The resource name of a model: `models/<model>`.
pub open spec fn model_path(model: Seq<char>) -> Seq<char> {
    "models/"@ + model
}

/// The embedding task that suits document retrieval.
pub open spec fn retrieval_task() -> Seq<char> {
    "RETRIEVAL_DOCUMENT"@
}

/// The request that embeds `text` with `model`, for document retrieval.
pub fn embedding_request(model: &str, text: &str) -> (res: EmbeddingRequest)
    ensures
        res.model@ == model_path(model@),
        single_text(res.content, text@),
        res.task_type@ == retrieval_task(),
{
    let mut path = "models/".to_owned();
    path.append(model);
    EmbeddingRequest {
        model: path,
        content: single_part(text),
        task_type: "RETRIEVAL_DOCUMENT".to_owned(),
    }
}

/// The request that asks the model to answer `prompt`.
pub fn generation_request(prompt: &str) -> (res: GenerateContentRequest)
    ensures
        res.contents@.len() == 1,
        single_text(res.contents@[0], prompt@),
{
    let mut contents = Vec::new();
    contents.push(single_part(prompt));
    GenerateContentRequest { contents }
}

/// A part of a candidate answer.
#[derive(Debug, Clone)]
pub struct CandidatePart {
    pub text: Option<String>,
}

/// The content of a candidate answer.
#[derive(Debug, Clone)]
pub struct CandidateContent {
    pub parts: Option<Vec<CandidatePart>>,
}

/// A candidate answer.
#[derive(Debug, Clone)]
pub struct Candidate {
    pub content: Option<CandidateContent>,
}

/// The body of a `generateContent` answer.
#[derive(Debug, Clone)]
pub struct GenerateContentResponse {
    pub candidates: Option<Vec<Candidate>>,
}

/// The text of the first part of the first candidate, when there is one.
pub open spec fn first_text_spec(r: GenerateContentResponse) -> Option<Seq<char>> {
    match r.candidates {
        Some(cs) => if cs@.len() == 0 {
            None
        } else {
            match cs@[0].content {
                Some(c) => match c.parts {
                    Some(ps) => if ps@.len() == 0 {
                        None
                    } else {
                        match ps@[0].text {
                            Some(t) => Some(t@),
                            None => None,
                        }
                    },
                    None => None,
                },
                None => None,
            }
        },
        None => None,
    }
}

/// The answer's text: that of the first part of the first candidate, or
/// `No response generated` when it has none.
pub open spec fn response_text_spec(r: GenerateContentResponse) -> Seq<char> {
    match first_text_spec(r) {
        Some(t) => t,
        None => "No response generated"@,
    }
}

/// Reads the text of a generation answer.
pub fn response_text(r: &GenerateContentResponse) -> (res: String)
    ensures
        res@ == response_text_spec(*r),
{
    match &r.candidates {
        Some(cs) => if cs.len() > 0 {
            match &cs[0].content {
                Some(c) => match &c.parts {
                    Some(ps) => if ps.len() > 0 {
                        match &ps[0].text {
                            Some(t) => t.clone(),
                            None => "No response generated".to_owned(),
                        }
                    } else {
                        "No response generated".to_owned()
                    },
                    None => "No response generated".to_owned(),
                },
                None => "No response generated".to_owned(),
            }
        } else {
            "No response generated".to_owned()
        },
        None => "No response generated".to_owned(),
    }
}

/// Where an exchange with the provider failed.
#[derive(Debug, Clone, Copy, PartialEq, Eq, Structural)]
pub enum ApiFailure {
    /// The embedding request could not be sent or answered.
    EmbeddingRequest,
    /// The embedding request was answered with an error status.
    EmbeddingStatus,
    /// The generation request could not be sent or answered.
    GenerationRequest,
    /// The generation request was answered with an error status.
    GenerationStatus,
    /// The answer's body did not parse.
    Parse,
}

/// The description that opens the error text of a failure.
pub open spec fn failure_prefix(kind: ApiFailure) -> Seq<char> {
    match kind {
        ApiFailure::EmbeddingRequest => "Embedding error: "@,
        ApiFailure::EmbeddingStatus => "Embedding API error: "@,
        ApiFailure::GenerationRequest => "Generation error: "@,
        ApiFailure::GenerationStatus => "Generation API error: "@,
        ApiFailure::Parse => "Parse error: "@,
    }
}

/// The internal error for a failed exchange, with the failure's `detail`.
pub fn api_failure(kind: ApiFailure, detail: &str) -> (res: AppError)
    ensures
        res matches AppError::Internal(m) && m@ == failure_prefix(kind) + detail@,
{
    let mut m = match kind {
        ApiFailure::EmbeddingRequest => "Embedding error: ".to_owned(),
        ApiFailure::EmbeddingStatus => "Embedding API error: ".to_owned(),
        ApiFailure::GenerationRequest => "Generation error: ".to_owned(),
        ApiFailure::GenerationStatus => "Generation API error: ".to_owned(),
        ApiFailure::Parse => "Parse error: ".to_owned(),
    };
    m.append(detail);
    AppError::Internal(m)
}

} // verus!

verus! {

/// Endpoints: the API base, the model, `:`, the method, then the key as the `key`
/// query parameter; the models and methods are the provider's.
pub proof fn lemma_endpoint_layout(model: Seq<char>, method: Seq<char>, api_key: Seq<char>)
    ensures
        endpoint_spec(model, method, api_key)
            == "https://generativelanguage.googleapis.com/v1beta/models/"@ + model + ":"@
            + method + "?key="@ + api_key,
        EMBEDDING_MODEL@ == "gemini-embedding-001"@,
        GENERATION_MODEL@ == "gemini-2.5-flash"@,
        LEGACY_EMBEDDING_MODEL@ == "text-embedding-004"@,
        LEGACY_GENERATION_MODEL@ == "gemini-2.5-flash-preview-09-2025"@,
        EMBED_METHOD@ == "embedContent"@,
        GENERATE_METHOD@ == "generateContent"@,
{
}

/// The answer's text is the text of the first part of the first candidate, whatever
/// follows them; an answer without one reads `No response generated`.
pub proof fn lemma_response_text_takes_first(r: GenerateContentResponse)
    ensures
        (r.candidates matches Some(cs) && cs@.len() > 0 && (cs@[0].content matches Some(c)
            && (c.parts matches Some(ps) && ps@.len() > 0 && (ps@[0].text matches Some(t)
            && response_text_spec(r) == t@)))) || (response_text_spec(r)
            == "No response generated"@ && first_text_spec(r) is None),
{
}

/// Embedding requests name the model as `models/<model>` and ask for the
/// document-retrieval task; a missing API key is refused as `API key not found`.
pub proof fn lemma_request_texts(model: Seq<char>)
    ensures
        model_path(model) == "models/"@ + model,
        retrieval_task() == "RETRIEVAL_DOCUMENT"@,
        missing_key_text() == "API key not found"@,
{
}

/// The error texts of failed exchanges name the step that failed.
pub proof fn lemma_failure_prefixes()
    ensures
        failure_prefix(ApiFailure::EmbeddingRequest) == "Embedding error: "@,
        failure_prefix(ApiFailure::EmbeddingStatus) == "Embedding API error: "@,
        failure_prefix(ApiFailure::GenerationRequest) == "Generation error: "@,
        failure_prefix(ApiFailure::GenerationStatus) == "Generation API error: "@,
        failure_prefix(ApiFailure::Parse) == "Parse error: "@,
{
}

} // verus!

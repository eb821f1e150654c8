//! The service's errors and how they are answered over HTTP.

use vstd::prelude::*;
use crate::entities::ErrorResponse;

verus! {

/// What went wrong while serving a request.
#[derive(Debug, Clone)]
pub enum AppError {
    /// The request is malformed; the text says how.
    Validation(String),
    /// Something failed inside the service; the text is for the logs only.
    Internal(String),
    /// The database failed; the text is for the logs only.
    Database(String),
    /// The client has asked too often.
    RateLimit,
}

impl AppError {
    /// The error's description, as its `Display` renders it.
    pub open spec fn message_spec(&self) -> Seq<char> {
        match self {
            AppError::Validation(m) => "Validation Error: "@ + m@,
            AppError::Internal(m) => "Internal Server Error: "@ + m@,
            AppError::Database(m) => "Database Error: "@ + m@,
            AppError::RateLimit => "Rate Limit Exceeded"@,
        }
    }

    /// The error's description, as its `Display` renders it.
    pub fn message(&self) -> (res: String)
        ensures
            res@ == self.message_spec(),
    {
        match self {
            AppError::Validation(m) => {
                let mut res = "Validation Error: ".to_owned();
                res.append(m.as_str());
                res
            },
            AppError::Internal(m) => {
                let mut res = "Internal Server Error: ".to_owned();
                res.append(m.as_str());
                res
            },
            AppError::Database(m) => {
                let mut res = "Database Error: ".to_owned();
                res.append(m.as_str());
                res
            },
            AppError::RateLimit => "Rate Limit Exceeded".to_owned(),
        }
    }

    /// The HTTP status of the answer: 400 for a malformed request, 429 when rate
    /// limited, 500 otherwise.
    pub open spec fn status_spec(&self) -> u16 {
        match self {
            AppError::Validation(_) => 400,
            AppError::RateLimit => 429,
            AppError::Internal(_) | AppError::Database(_) => 500,
        }
    }

    /// The HTTP status of the answer.
    pub fn status(&self) -> (res: u16)
        ensures
            res == self.status_spec(),
    {
        match self {
            AppError::Validation(_) => 400,
            AppError::RateLimit => 429,
            AppError::Internal(_) | AppError::Database(_) => 500,
        }
    }

    /// The `error` text of the JSON answer: a validation message is passed on; a
    /// failure inside the service is never described to the client.
    pub open spec fn public_message_spec(&self) -> Seq<char> {
        match self {
            AppError::Validation(m) => m@,
            AppError::RateLimit => "Rate limit exceeded"@,
            AppError::Internal(_) | AppError::Database(_) => "Internal server error"@,
        }
    }

    /// The JSON answer's body.
    pub fn error_response(&self) -> (res: ErrorResponse)
        ensures
            res.error@ == self.public_message_spec(),
    {
        match self {
            AppError::Validation(m) => ErrorResponse { error: m.clone() },
            AppError::RateLimit => ErrorResponse { error: "Rate limit exceeded".to_owned() },
            AppError::Internal(_) | AppError::Database(_) => ErrorResponse {
                error: "Internal server error".to_owned(),
            },
        }
    }
}

/// A failure inside the service is answered with status 500 and the same fixed text,
/// whatever its details: nothing internal reaches the client.
pub proof fn lemma_internal_details_never_leak(e: AppError, f: AppError)
    requires
        e is Internal || e is Database,
        f is Internal || f is Database,
    ensures
        e.status_spec() == 500,
        e.public_message_spec() == f.public_message_spec(),
{
}

} // verus!

verus! {

/// How each error is answered: a malformed request with 400 and its own text; too
/// many requests with 429 and `Rate limit exceeded`; and its description names its kind.
pub proof fn lemma_error_answers(m: String)
    ensures
        AppError::Validation(m).status_spec() == 400,
        AppError::Validation(m).public_message_spec() == m@,
        AppError::RateLimit.status_spec() == 429,
        AppError::RateLimit.public_message_spec() == "Rate limit exceeded"@,
        AppError::Internal(m).public_message_spec() == "Internal server error"@,
        AppError::Validation(m).message_spec() == "Validation Error: "@ + m@,
        AppError::Internal(m).message_spec() == "Internal Server Error: "@ + m@,
        AppError::Database(m).message_spec() == "Database Error: "@ + m@,
        AppError::RateLimit.message_spec() == "Rate Limit Exceeded"@,
{
}

} // verus!

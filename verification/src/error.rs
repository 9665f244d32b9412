//! Unified application error type shared across all modules.
//!
//! Every variant maps to an HTTP status code and a public message; server-side
//! failures never reveal their cause to the client.
use vstd::prelude::*;

use crate::text::{concat2, owned};

verus! {

/// Unified application error type.
///
/// `Internal` and `Database` carry the text of the underlying error; it is
/// logged, never sent to the client.
#[derive(Debug, Clone)]
pub enum AppError {
    NotFound(String),
    Unauthorized,
    Forbidden(String),
    Validation(String),
    Conflict(String),
    RateLimited,
    Timeout,
    Internal(String),
    Database(String),
    External(String),
}

/// HTTP status code of each variant.
pub open spec fn status_of(e: AppError) -> u16 {
    match e {
        AppError::NotFound(_) => 404,
        AppError::Unauthorized => 401,
        AppError::Forbidden(_) => 403,
        AppError::Validation(_) => 400,
        AppError::Conflict(_) => 409,
        AppError::RateLimited => 429,
        AppError::Timeout => 408,
        AppError::Internal(_) => 500,
        AppError::Database(_) => 500,
        AppError::External(_) => 502,
    }
}

/// The message sent to the client in the `error` field of the body.
pub open spec fn public_message_of(e: AppError) -> Seq<char> {
    match e {
        AppError::NotFound(m) => m@,
        AppError::Unauthorized => "Unauthorized"@,
        AppError::Forbidden(m) => m@,
        AppError::Validation(m) => m@,
        AppError::Conflict(m) => m@,
        AppError::RateLimited => "Rate limited"@,
        AppError::Timeout => "Request timeout"@,
        AppError::Internal(_) => "Internal server error"@,
        AppError::Database(_) => "Internal server error"@,
        AppError::External(_) => "External service error"@,
    }
}

/// The error's description, as written to logs.
pub open spec fn description_of(e: AppError) -> Seq<char> {
    match e {
        AppError::NotFound(m) => "Not found: "@ + m@,
        AppError::Unauthorized => "Unauthorized"@,
        AppError::Forbidden(m) => "Forbidden: "@ + m@,
        AppError::Validation(m) => "Validation error: "@ + m@,
        AppError::Conflict(m) => "Conflict: "@ + m@,
        AppError::RateLimited => "Rate limited"@,
        AppError::Timeout => "Request timeout"@,
        AppError::Internal(_) => "Internal server error"@,
        AppError::Database(_) => "Database error"@,
        AppError::External(m) => "External service error: "@ + m@,
    }
}

impl AppError {
    /// HTTP status code for this error.
    pub fn status_code(&self) -> (code: u16)
        ensures
            code == status_of(*self),
    {
        match self {
            AppError::NotFound(_) => 404,
            AppError::Unauthorized => 401,
            AppError::Forbidden(_) => 403,
            AppError::Validation(_) => 400,
            AppError::Conflict(_) => 409,
            AppError::RateLimited => 429,
            AppError::Timeout => 408,
            AppError::Internal(_) => 500,
            AppError::Database(_) => 500,
            AppError::External(_) => 502,
        }
    }

    /// The message sent to the client.
    pub fn public_message(&self) -> (m: String)
        ensures
            m@ == public_message_of(*self),
    {
        match self {
            AppError::NotFound(m) => m.clone(),
            AppError::Unauthorized => owned("Unauthorized"),
            AppError::Forbidden(m) => m.clone(),
            AppError::Validation(m) => m.clone(),
            AppError::Conflict(m) => m.clone(),
            AppError::RateLimited => owned("Rate limited"),
            AppError::Timeout => owned("Request timeout"),
            AppError::Internal(_) => owned("Internal server error"),
            AppError::Database(_) => owned("Internal server error"),
            AppError::External(_) => owned("External service error"),
        }
    }

    /// The status and the `error` message of the HTTP response for this
    /// error; the response body is `{"error": <message>}`.
    pub fn into_response(self) -> (resp: (u16, String))
        ensures
            resp.0 == status_of(self),
            resp.1@ == public_message_of(self),
    {
        (self.status_code(), self.public_message())
    }

    /// The error's description, as written to logs.
    pub fn to_string(&self) -> (s: String)
        ensures
            s@ == description_of(*self),
    {
        match self {
            AppError::NotFound(m) => concat2("Not found: ", m.as_str()),
            AppError::Unauthorized => owned("Unauthorized"),
            AppError::Forbidden(m) => concat2("Forbidden: ", m.as_str()),
            AppError::Validation(m) => concat2("Validation error: ", m.as_str()),
            AppError::Conflict(m) => concat2("Conflict: ", m.as_str()),
            AppError::RateLimited => owned("Rate limited"),
            AppError::Timeout => owned("Request timeout"),
            AppError::Internal(_) => owned("Internal server error"),
            AppError::Database(_) => owned("Database error"),
            AppError::External(m) => concat2("External service error: ", m.as_str()),
        }
    }

    /// Whether the error is a server-side failure (a 5xx status).
    pub fn is_server_error(&self) -> (b: bool)
        ensures
            b == (status_of(*self) >= 500),
    {
        self.status_code() >= 500
    }
}

/// Server-side failures answer with a 5xx status and a fixed message that does
/// not depend on the failure's cause; client errors answer with a 4xx status.
pub proof fn law_server_errors_hide_cause(e: AppError, f: AppError)
    ensures
        status_of(e) >= 500 ==> (public_message_of(e) == "Internal server error"@
            || public_message_of(e) == "External service error"@),
        (status_of(e) >= 500 && status_of(f) >= 500 && status_of(e) == status_of(f))
            ==> public_message_of(e) == public_message_of(f),
        400 <= status_of(e) < 600,
{
}

/// The HTTP answer of every error: 404, 401, 403, 400, 409, 429 and 408 for
/// the client errors, carrying their own message (or a fixed one for the
/// unit variants); 500 with `Internal server error` for internal and
/// database failures; 502 with `External service error` for a failing
/// external service.
pub proof fn law_error_answers(e: AppError)
    ensures
        e matches AppError::NotFound(m) ==> status_of(e) == 404 && public_message_of(e) == m@,
        e is Unauthorized ==> status_of(e) == 401 && public_message_of(e) == "Unauthorized"@,
        e matches AppError::Forbidden(m) ==> status_of(e) == 403 && public_message_of(e) == m@,
        e matches AppError::Validation(m) ==> status_of(e) == 400 && public_message_of(e) == m@,
        e matches AppError::Conflict(m) ==> status_of(e) == 409 && public_message_of(e) == m@,
        e is RateLimited ==> status_of(e) == 429 && public_message_of(e) == "Rate limited"@,
        e is Timeout ==> status_of(e) == 408 && public_message_of(e) == "Request timeout"@,
        e is Internal ==> status_of(e) == 500 && public_message_of(e) == "Internal server error"@,
        e is Database ==> status_of(e) == 500 && public_message_of(e) == "Internal server error"@,
        e is External ==> status_of(e) == 502 && public_message_of(e) == "External service error"@,
{
}

} // verus!

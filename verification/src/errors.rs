//! The error returned by every fallible operation of the client.

use crate::json::Json;
use crate::text::{decimal, push_decimal};
use vstd::prelude::*;

verus! {

/// A failure of the HTTP layer, with what the retry policy reads of it.
#[derive(Debug)]
pub struct HttpFailure {
    /// Human-readable description of the failure.
    pub message: String,
    /// The request timed out.
    pub is_timeout: bool,
    /// The connection could not be established.
    pub is_connect: bool,
    /// The request could not be sent.
    pub is_request: bool,
}

/// Errors that can be returned by SDK operations.
#[derive(Debug)]
#[non_exhaustive]
pub enum HivehookError {
    /// Generic API-level error reported by the server.
    Api {
        /// Human-readable error message.
        message: String,
        /// HTTP status code, when available.
        status_code: Option<u16>,
    },
    /// The server returned a `NOT_FOUND` error code.
    NotFound {
        /// Human-readable error message.
        message: String,
        /// Raw `extensions` payload from the GraphQL error, when present.
        extensions: Option<Json>,
    },
    /// The server returned a `CONFLICT` error code.
    Conflict {
        /// Human-readable error message.
        message: String,
        /// Raw `extensions` payload from the GraphQL error, when present.
        extensions: Option<Json>,
    },
    /// Authentication failed (missing/invalid API key).
    Auth(String),
    /// The server reported a validation error on the request payload.
    Validation {
        /// Human-readable error message.
        message: String,
        /// Raw `extensions` payload from the GraphQL error, when present.
        extensions: Option<Json>,
    },
    /// HTTP 429: the server is rate-limiting the caller.
    RateLimit {
        /// Suggested wait in seconds, from the `Retry-After` header.
        retry_after: Option<u64>,
        /// Human-readable error message.
        message: String,
    },
    /// HTTP 5xx server-side failure.
    ServerError {
        /// HTTP status code returned by the server.
        status: u16,
        /// Human-readable error message.
        message: String,
    },
    /// Underlying HTTP/transport failure.
    Http(HttpFailure),
    /// JSON serialization/deserialization failure.
    Json(serde_json::Error),
}

/// The text of a JSON failure (`serde_json::Error`'s `Display`). Nothing is
/// stated of the text.
#[verifier::external_body]
fn json_failure_text(e: &serde_json::Error) -> String {
    format!("{}", e)
}

/// What an error reads as: a prefix naming its kind, then its message.
pub open spec fn error_text_matches(e: HivehookError, text: Seq<char>) -> bool {
    match e {
        HivehookError::Api { message, .. } => text == "API error: "@ + message@,
        HivehookError::NotFound { message, .. } => text == "not found: "@ + message@,
        HivehookError::Conflict { message, .. } => text == "conflict: "@ + message@,
        HivehookError::Auth(message) => text == "auth error: "@ + message@,
        HivehookError::Validation { message, .. } => text == "validation error: "@ + message@,
        HivehookError::RateLimit { message, .. } => text == "rate limited: "@ + message@,
        HivehookError::ServerError { status, message } => text == "server error "@ + decimal(
            status as nat,
        ) + ": "@ + message@,
        HivehookError::Http(f) => text == "HTTP error: "@ + f.message@,
        HivehookError::Json(_) => exists|t: Seq<char>| text == "JSON error: "@ + t,
    }
}

impl HivehookError {
    /// The error as text, as it is displayed.
    pub fn to_string(&self) -> (text: String)
        ensures
            error_text_matches(*self, text@),
    {
        let (prefix, message): (&str, &String) = match self {
            HivehookError::Api { message, .. } => ("API error: ", message),
            HivehookError::NotFound { message, .. } => ("not found: ", message),
            HivehookError::Conflict { message, .. } => ("conflict: ", message),
            HivehookError::Auth(message) => ("auth error: ", message),
            HivehookError::Validation { message, .. } => ("validation error: ", message),
            HivehookError::RateLimit { message, .. } => ("rate limited: ", message),
            HivehookError::ServerError { status, message } => {
                let mut text = String::from_str("server error ");
                push_decimal(&mut text, *status as u64);
                text.append(": ");
                text.append(message.as_str());
                return text;
            },
            HivehookError::Http(f) => ("HTTP error: ", &f.message),
            HivehookError::Json(e) => {
                let detail = json_failure_text(e);
                let mut text = String::from_str("JSON error: ");
                text.append(detail.as_str());
                assert(text@ == "JSON error: "@ + detail@);
                return text;
            },
        };
        let mut text = String::from_str(prefix);
        text.append(message.as_str());
        text
    }
}

} // verus!

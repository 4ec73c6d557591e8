//! The errors of the client and the error envelope of the API.

use vstd::prelude::*;
use crate::text::{concat, decimal_text, u64_to_string};

verus! {

/// Errors that can occur when using the client.
#[derive(Debug)]
pub enum Error {
    /// Invalid or missing API key.
    Authentication { message: String },
    /// Rate limit exceeded; `retry_after` holds the seconds to wait, where the
    /// server named them.
    RateLimit { message: String, retry_after: Option<u64> },
    /// Insufficient credits in the account.
    InsufficientCredits { message: String },
    /// Invalid request parameters.
    Validation { message: String },
    /// Requested resource not found.
    NotFound { message: String },
    /// The connection could not be established.
    Network { message: String },
    /// The request timed out.
    Timeout,
    /// A body could not be encoded or decoded; carries the codec's message.
    Json(String),
    /// Any other failure of the transport; carries the transport's message.
    Http(String),
    /// Any other failure reported by the API.
    Api { message: String, status_code: u16, code: Option<String> },
}

/// What an [`Error`] holds, with every text as a sequence of characters.
pub enum ErrorView {
    Authentication { message: Seq<char> },
    RateLimit { message: Seq<char>, retry_after: Option<u64> },
    InsufficientCredits { message: Seq<char> },
    Validation { message: Seq<char> },
    NotFound { message: Seq<char> },
    Network { message: Seq<char> },
    Timeout,
    Json(Seq<char>),
    Http(Seq<char>),
    Api { message: Seq<char>, status_code: u16, code: Option<Seq<char>> },
}

/// The characters of an optional text.
pub open spec fn text_of(text: Option<String>) -> Option<Seq<char>> {
    match text {
        Some(t) => Some(t@),
        None => None,
    }
}

impl View for Error {
    type V = ErrorView;

    open spec fn view(&self) -> ErrorView {
        match *self {
            Error::Authentication { message } => ErrorView::Authentication { message: message@ },
            Error::RateLimit { message, retry_after } => ErrorView::RateLimit {
                message: message@,
                retry_after,
            },
            Error::InsufficientCredits { message } => ErrorView::InsufficientCredits {
                message: message@,
            },
            Error::Validation { message } => ErrorView::Validation { message: message@ },
            Error::NotFound { message } => ErrorView::NotFound { message: message@ },
            Error::Network { message } => ErrorView::Network { message: message@ },
            Error::Timeout => ErrorView::Timeout,
            Error::Json(detail) => ErrorView::Json(detail@),
            Error::Http(detail) => ErrorView::Http(detail@),
            Error::Api { message, status_code, code } => ErrorView::Api {
                message: message@,
                status_code,
                code: text_of(code),
            },
        }
    }
}

impl ErrorView {
    /// Whether trying again may help: a rate limit, a failed connection or a
    /// timeout.
    pub open spec fn retryable(self) -> bool {
        self is RateLimit || self is Network || self is Timeout
    }

    /// The seconds to wait that a rate limit names.
    pub open spec fn retry_after(self) -> Option<u64> {
        match self {
            ErrorView::RateLimit { retry_after, .. } => retry_after,
            _ => None,
        }
    }
}

impl ErrorView {
    /// The line that describes the error to a reader.
    pub open spec fn display(self) -> Seq<char> {
        match self {
            ErrorView::Authentication { message } => "Authentication failed: "@ + message,
            ErrorView::RateLimit { message, .. } => "Rate limit exceeded: "@ + message,
            ErrorView::InsufficientCredits { message } => "Insufficient credits: "@ + message,
            ErrorView::Validation { message } => "Validation error: "@ + message,
            ErrorView::NotFound { message } => "Not found: "@ + message,
            ErrorView::Network { message } => "Network error: "@ + message,
            ErrorView::Timeout => "Request timed out"@,
            ErrorView::Json(detail) => "JSON error: "@ + detail,
            ErrorView::Http(detail) => "HTTP error: "@ + detail,
            ErrorView::Api { message, status_code, .. } => "API error ("@ + decimal_text(
                status_code as nat,
            ) + "): "@ + message,
        }
    }
}

impl Error {
    /// Describes the error in one line.
    pub fn to_string(&self) -> (line: String)
        ensures
            line@ == self@.display(),
    {
        match self {
            Error::Authentication { message } => concat(
                "Authentication failed: ",
                message.as_str(),
            ),
            Error::RateLimit { message, .. } => concat("Rate limit exceeded: ", message.as_str()),
            Error::InsufficientCredits { message } => concat(
                "Insufficient credits: ",
                message.as_str(),
            ),
            Error::Validation { message } => concat("Validation error: ", message.as_str()),
            Error::NotFound { message } => concat("Not found: ", message.as_str()),
            Error::Network { message } => concat("Network error: ", message.as_str()),
            Error::Timeout => "Request timed out".to_string(),
            Error::Json(detail) => concat("JSON error: ", detail.as_str()),
            Error::Http(detail) => concat("HTTP error: ", detail.as_str()),
            Error::Api { message, status_code, .. } => {
                let code = u64_to_string(*status_code as u64);
                let head = concat("API error (", code.as_str());
                let middle = concat(head.as_str(), "): ");
                concat(middle.as_str(), message.as_str())
            },
        }
    }

    /// Returns true if this error is retryable.
    pub fn is_retryable(&self) -> (retryable: bool)
        ensures
            retryable == self@.retryable(),
    {
        match self {
            Error::RateLimit { .. } => true,
            Error::Network { .. } => true,
            Error::Timeout => true,
            _ => false,
        }
    }

    /// Returns the seconds to wait before trying again, if the error names
    /// them.
    pub fn retry_after(&self) -> (seconds: Option<u64>)
        ensures
            seconds == self@.retry_after(),
    {
        match self {
            Error::RateLimit { retry_after, .. } => *retry_after,
            _ => None,
        }
    }
}

/// The error envelope that the API sends with a failure.
#[derive(Debug)]
pub struct ApiErrorResponse {
    pub message: Option<String>,
    pub error: Option<String>,
    pub code: Option<String>,
}

/// The text used where a failure carries no message.
pub open spec fn unknown_error() -> Seq<char> {
    "Unknown error"@
}

impl ApiErrorResponse {
    /// The readable text of the envelope: `message` where it is there, else
    /// `error`, else a fixed fallback.
    pub open spec fn spec_message(&self) -> Seq<char> {
        match self.message {
            Some(m) => m@,
            None => match self.error {
                Some(e) => e@,
                None => unknown_error(),
            },
        }
    }

    /// Returns the readable text of the envelope.
    pub fn message(&self) -> (text: String)
        ensures
            text@ == self.spec_message(),
    {
        match &self.message {
            Some(m) => m.clone(),
            None => match &self.error {
                Some(e) => e.clone(),
                None => "Unknown error".to_string(),
            },
        }
    }
}

} // verus!

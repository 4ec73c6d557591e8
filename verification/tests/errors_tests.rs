use sendly::client::{RawResponse, Sendly};
use sendly::error::{ApiErrorResponse, Error};

fn envelope(message: Option<&str>, error: Option<&str>, code: Option<&str>) -> ApiErrorResponse {
    ApiErrorResponse {
        message: message.map(|m| m.to_string()),
        error: error.map(|m| m.to_string()),
        code: code.map(|m| m.to_string()),
    }
}

fn response(status: u16, retry_after: Option<&str>, body: Option<ApiErrorResponse>) -> RawResponse {
    RawResponse {
        status,
        retry_after: retry_after.map(|h| h.to_string()),
        error_body: body,
        body: String::new(),
    }
}

fn failure(status: u16, retry_after: Option<&str>, body: Option<ApiErrorResponse>) -> Error {
    let client = Sendly::new("test_key");
    client.handle_response(response(status, retry_after, body)).unwrap_err()
}

#[test]
fn test_error_authentication() {
    let error = failure(401, None, Some(envelope(None, Some("Invalid API key"), None)));
    match &error {
        Error::Authentication { message } => {
            assert_eq!(message, "Invalid API key");
            assert!(!error.is_retryable());
            assert_eq!(error.to_string(), "Authentication failed: Invalid API key");
        }
        _ => panic!("Expected Authentication error"),
    }
}

#[test]
fn test_error_authentication_with_message_field() {
    let error = failure(401, None, Some(envelope(Some("Unauthorized access"), None, None)));
    match error {
        Error::Authentication { message } => assert_eq!(message, "Unauthorized access"),
        _ => panic!("Expected Authentication error"),
    }
}

#[test]
fn test_error_rate_limit_with_retry_after() {
    let error = failure(429, Some("60"), Some(envelope(None, Some("Rate limit exceeded"), None)));
    match &error {
        Error::RateLimit { message, retry_after } => {
            assert_eq!(message, "Rate limit exceeded");
            assert_eq!(*retry_after, Some(60));
            assert!(error.is_retryable());
            assert_eq!(error.retry_after(), Some(60));
            assert_eq!(error.to_string(), "Rate limit exceeded: Rate limit exceeded");
        }
        _ => panic!("Expected RateLimit error"),
    }
}

#[test]
fn test_error_rate_limit_without_retry_after() {
    let error = failure(429, None, Some(envelope(None, Some("Too many requests"), None)));
    match &error {
        Error::RateLimit { message, retry_after } => {
            assert_eq!(message, "Too many requests");
            assert_eq!(*retry_after, None);
            assert!(error.is_retryable());
            assert_eq!(error.retry_after(), None);
        }
        _ => panic!("Expected RateLimit error"),
    }
}

#[test]
fn retry_after_header_is_read_as_a_decimal_number() {
    let seconds = |header: &str| failure(429, Some(header), None).retry_after();
    assert_eq!(seconds("0"), Some(0));
    assert_eq!(seconds("007"), Some(7));
    assert_eq!(seconds("+15"), Some(15));
    assert_eq!(seconds("18446744073709551615"), Some(u64::MAX));
    assert_eq!(seconds("18446744073709551616"), None);
    assert_eq!(seconds(""), None);
    assert_eq!(seconds("+"), None);
    assert_eq!(seconds("-1"), None);
    assert_eq!(seconds(" 60"), None);
    assert_eq!(seconds("60s"), None);
    assert_eq!(seconds("Wed, 21 Oct 2015 07:28:00 GMT"), None);
}

#[test]
fn retry_after_is_attached_to_rate_limits_only() {
    let error = failure(503, Some("60"), None);
    assert_eq!(error.retry_after(), None);
    assert!(matches!(error, Error::Api { status_code: 503, .. }));
}

#[test]
fn test_error_insufficient_credits() {
    let error = failure(402, None, Some(envelope(None, Some("Insufficient credits"), None)));
    match &error {
        Error::InsufficientCredits { message } => {
            assert_eq!(message, "Insufficient credits");
            assert!(!error.is_retryable());
        }
        _ => panic!("Expected InsufficientCredits error"),
    }
}

#[test]
fn test_error_validation_bad_request() {
    let error = failure(400, None, Some(envelope(None, Some("Invalid request parameters"), None)));
    match &error {
        Error::Validation { message } => {
            assert_eq!(message, "Invalid request parameters");
            assert!(!error.is_retryable());
        }
        _ => panic!("Expected Validation error"),
    }
}

#[test]
fn test_error_validation_unprocessable_entity() {
    let error = failure(422, None, Some(envelope(None, Some("Unprocessable entity"), None)));
    match error {
        Error::Validation { message } => assert_eq!(message, "Unprocessable entity"),
        _ => panic!("Expected Validation error"),
    }
}

#[test]
fn test_error_not_found() {
    let error = failure(404, None, Some(envelope(None, Some("Message not found"), None)));
    match &error {
        Error::NotFound { message } => {
            assert_eq!(message, "Message not found");
            assert!(!error.is_retryable());
        }
        _ => panic!("Expected NotFound error"),
    }
}

#[test]
fn test_error_api_500() {
    let error = failure(500, None, Some(envelope(None, Some("Internal server error"), None)));
    match &error {
        Error::Api { message, status_code, code } => {
            assert_eq!(message, "Internal server error");
            assert_eq!(*status_code, 500);
            assert_eq!(*code, None);
            assert!(!error.is_retryable());
        }
        _ => panic!("Expected Api error"),
    }
}

#[test]
fn test_error_api_with_code() {
    let body = envelope(None, Some("Service temporarily unavailable"), Some("SERVICE_UNAVAILABLE"));
    match failure(503, None, Some(body)) {
        Error::Api { message, status_code, code } => {
            assert_eq!(message, "Service temporarily unavailable");
            assert_eq!(status_code, 503);
            assert_eq!(code, Some("SERVICE_UNAVAILABLE".to_string()));
        }
        _ => panic!("Expected Api error"),
    }
}

#[test]
fn test_error_api_fallback_message() {
    match failure(500, None, None) {
        Error::Api { message, status_code, code } => {
            assert_eq!(message, "Unknown error");
            assert_eq!(status_code, 500);
            assert_eq!(code, None);
        }
        _ => panic!("Expected Api error"),
    }
    match failure(418, None, Some(envelope(None, None, Some("TEAPOT")))) {
        Error::Api { message, status_code, code } => {
            assert_eq!(message, "Unknown error");
            assert_eq!(status_code, 418);
            assert_eq!(code, Some("TEAPOT".to_string()));
        }
        _ => panic!("Expected Api error"),
    }
}

#[test]
fn envelope_message_prefers_message_over_error() {
    assert_eq!(envelope(Some("m"), Some("e"), None).message(), "m");
    assert_eq!(envelope(None, Some("e"), None).message(), "e");
    assert_eq!(envelope(Some("m"), None, None).message(), "m");
    assert_eq!(envelope(None, None, Some("c")).message(), "Unknown error");
}

#[test]
fn success_statuses_hand_the_response_on() {
    let client = Sendly::new("test_key");
    for status in [200u16, 201, 204, 299] {
        let mut raw = response(status, Some("60"), None);
        raw.body = r#"{"id":"msg_1","status":"queued"}"#.to_string();
        let handled = client.handle_response(raw).unwrap();
        assert_eq!(handled.status, status);
        assert_eq!(handled.body, r#"{"id":"msg_1","status":"queued"}"#);
        assert_eq!(handled.retry_after, Some("60".to_string()));
    }
    for status in [100u16, 199, 300, 301, 500, 599] {
        assert!(client.handle_response(response(status, None, None)).is_err());
    }
}

#[test]
fn test_error_is_retryable() {
    // Retryable errors
    assert!(Error::RateLimit {
        message: "test".to_string(),
        retry_after: None
    }
    .is_retryable());
    assert!(Error::Network {
        message: "test".to_string()
    }
    .is_retryable());
    assert!(Error::Timeout.is_retryable());

    // Non-retryable errors
    assert!(!Error::Authentication {
        message: "test".to_string()
    }
    .is_retryable());
    assert!(!Error::InsufficientCredits {
        message: "test".to_string()
    }
    .is_retryable());
    assert!(!Error::Validation {
        message: "test".to_string()
    }
    .is_retryable());
    assert!(!Error::NotFound {
        message: "test".to_string()
    }
    .is_retryable());
    assert!(!Error::Api {
        message: "test".to_string(),
        status_code: 500,
        code: None
    }
    .is_retryable());
    assert!(!Error::Json("test".to_string()).is_retryable());
    assert!(!Error::Http("test".to_string()).is_retryable());
}

#[test]
fn test_error_retry_after() {
    let rate_limit_with_retry = Error::RateLimit {
        message: "test".to_string(),
        retry_after: Some(60),
    };
    assert_eq!(rate_limit_with_retry.retry_after(), Some(60));

    let rate_limit_without_retry = Error::RateLimit {
        message: "test".to_string(),
        retry_after: None,
    };
    assert_eq!(rate_limit_without_retry.retry_after(), None);

    // Other errors should return None
    assert_eq!(
        Error::Authentication {
            message: "test".to_string()
        }
        .retry_after(),
        None
    );
    assert_eq!(
        Error::Network {
            message: "test".to_string()
        }
        .retry_after(),
        None
    );
    assert_eq!(Error::Timeout.retry_after(), None);
}

#[test]
fn test_error_display_formats() {
    let auth_error = Error::Authentication {
        message: "Invalid key".to_string(),
    };
    assert_eq!(auth_error.to_string(), "Authentication failed: Invalid key");

    let rate_limit_error = Error::RateLimit {
        message: "Too many requests".to_string(),
        retry_after: Some(30),
    };
    assert_eq!(rate_limit_error.to_string(), "Rate limit exceeded: Too many requests");

    let credits_error = Error::InsufficientCredits {
        message: "No credits".to_string(),
    };
    assert_eq!(credits_error.to_string(), "Insufficient credits: No credits");

    let validation_error = Error::Validation {
        message: "Invalid input".to_string(),
    };
    assert_eq!(validation_error.to_string(), "Validation error: Invalid input");

    let not_found_error = Error::NotFound {
        message: "Not found".to_string(),
    };
    assert_eq!(not_found_error.to_string(), "Not found: Not found");

    let network_error = Error::Network {
        message: "Connection failed".to_string(),
    };
    assert_eq!(network_error.to_string(), "Network error: Connection failed");

    let timeout_error = Error::Timeout;
    assert_eq!(timeout_error.to_string(), "Request timed out");

    let api_error = Error::Api {
        message: "Server error".to_string(),
        status_code: 500,
        code: None,
    };
    assert_eq!(api_error.to_string(), "API error (500): Server error");

    assert_eq!(Error::Json("eof".to_string()).to_string(), "JSON error: eof");
    assert_eq!(Error::Http("redirect loop".to_string()).to_string(), "HTTP error: redirect loop");
}

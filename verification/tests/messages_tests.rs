use sendly::client::{Method, Sendly, SendlyConfig};
use sendly::error::Error;
use sendly::messages::{
    check_phone_match, validate_batch, validate_phone, validate_text, MessagePager,
};
use sendly::models::{
    BatchMessageItem, BatchStatus, ListBatchesOptions, ListMessagesOptions,
    ListScheduledMessagesOptions, MessageStatus, ScheduleMessageRequest, ScheduledMessageStatus,
    SendBatchRequest, SendMessageRequest,
};

fn client() -> Sendly {
    Sendly::with_config("test_api_key", SendlyConfig::new().base_url("http://mock"))
}

fn pair(name: &str, value: &str) -> (String, String) {
    (name.to_string(), value.to_string())
}

fn validation_message<T: std::fmt::Debug>(result: Result<T, Error>) -> String {
    match result {
        Err(Error::Validation { message }) => message,
        other => panic!("expected a validation error, got {:?}", other),
    }
}

fn item(to: &str, text: &str) -> BatchMessageItem {
    BatchMessageItem { to: to.to_string(), text: text.to_string() }
}

#[test]
fn validate_phone_accepts_e164() {
    for phone in ["+15551234567", "+442071234567", "+12", "+123456789012345", "+99"] {
        assert!(validate_phone(phone).is_ok(), "{}", phone);
    }
}

#[test]
fn validate_phone_refuses_other_formats() {
    for phone in [
        "", "+", "+1", "15551234567", "+05551234567", "+1555123456789012", "+1555-123-4567",
        "+1555 1234567", " +15551234567", "+15551234567 ", "+15551234567\n", "invalid", "++1555",
    ] {
        let message = validation_message(validate_phone(phone));
        assert_eq!(message, "Invalid phone number format. Use E.164 format (e.g., +15551234567)");
    }
}

#[test]
fn check_phone_match_accepts_a_match_only() {
    assert!(check_phone_match(Some(true)).is_ok());
    assert!(check_phone_match(Some(false)).is_err());
    assert!(check_phone_match(None).is_err());
}

#[test]
fn validate_text_bounds() {
    assert_eq!(validation_message(validate_text("")), "Message text is required");
    assert!(validate_text("a").is_ok());
    assert!(validate_text(&"a".repeat(1600)).is_ok());
    assert_eq!(
        validation_message(validate_text(&"a".repeat(1601))),
        "Message text exceeds maximum length (1600 characters)"
    );
    // The length is counted in bytes.
    assert!(validate_text(&"é".repeat(800)).is_ok());
    assert!(validate_text(&"é".repeat(801)).is_err());
}

#[test]
fn test_send_success() {
    let client = client();
    let request =
        SendMessageRequest { to: "+15551234567".to_string(), text: "Hello, World!".to_string() };
    let body = r#"{"to":"+15551234567","text":"Hello, World!"}"#;
    let prepared = client.messages().send(&request, body.to_string()).unwrap();
    assert_eq!(prepared.method, Method::Post);
    assert_eq!(prepared.url, "http://mock/messages");
    assert!(prepared.query.is_empty());
    assert_eq!(prepared.body.as_deref(), Some(body));
    assert!(prepared.headers.contains(&pair("Content-Type", "application/json")));
}

#[test]
fn test_send_invalid_phone_format() {
    let client = client();
    let request = SendMessageRequest { to: "invalid".to_string(), text: "Test".to_string() };
    let message = validation_message(client.messages().send(&request, String::new()));
    assert!(message.contains("Invalid phone number format"));
}

#[test]
fn test_send_empty_text() {
    let client = client();
    let request = SendMessageRequest { to: "+15551234567".to_string(), text: "".to_string() };
    let message = validation_message(client.messages().send(&request, String::new()));
    assert_eq!(message, "Message text is required");
}

#[test]
fn test_send_text_too_long() {
    let client = client();
    let request = SendMessageRequest { to: "+15551234567".to_string(), text: "a".repeat(1601) };
    let message = validation_message(client.messages().send(&request, String::new()));
    assert!(message.contains("exceeds maximum length"));
}

#[test]
fn send_judges_the_phone_before_the_text() {
    let client = client();
    let request = SendMessageRequest { to: "invalid".to_string(), text: "".to_string() };
    let message = validation_message(client.messages().send(&request, String::new()));
    assert!(message.contains("Invalid phone number format"));
}

#[test]
fn test_send_to_success() {
    let client = client();
    let prepared = client.messages().send_to("+15551234567", "Hello!", "{}".to_string()).unwrap();
    assert_eq!(prepared.method, Method::Post);
    assert_eq!(prepared.url, "http://mock/messages");
    assert_eq!(prepared.body.as_deref(), Some("{}"));
}

#[test]
fn test_send_to_invalid_phone() {
    let client = client();
    let result = client.messages().send_to("invalid", "Hello!", String::new());
    assert!(validation_message(result).contains("Invalid phone number format"));
}

#[test]
fn test_list_success() {
    let client = client();
    let request = client.messages().list(None);
    assert_eq!(request.method, Method::Get);
    assert_eq!(request.url, "http://mock/messages");
    assert!(request.query.is_empty());
    assert_eq!(request.body, None);
}

#[test]
fn test_list_with_options() {
    let client = client();
    let options =
        ListMessagesOptions::new().limit(50).offset(10).status(MessageStatus::Delivered);
    let request = client.messages().list(Some(options));
    assert_eq!(
        request.query,
        vec![pair("limit", "50"), pair("offset", "10"), pair("status", "delivered")]
    );
}

#[test]
fn test_list_with_to_filter() {
    let client = client();
    let request =
        client.messages().list(Some(ListMessagesOptions::new().to("+15551234567")));
    assert_eq!(request.query, vec![pair("to", "+15551234567")]);
}

#[test]
fn test_get_success() {
    let client = client();
    let request = client.messages().get("msg_abc123").unwrap();
    assert_eq!(request.method, Method::Get);
    assert_eq!(request.url, "http://mock/messages/msg_abc123");
    assert!(request.query.is_empty());
}

#[test]
fn test_get_empty_id() {
    let client = client();
    assert_eq!(validation_message(client.messages().get("")), "Message ID is required");
}

#[test]
fn get_encodes_the_id() {
    let client = client();
    let request = client.messages().get("../a b?c=d&e/é~-_.").unwrap();
    assert_eq!(request.url, "http://mock/messages/..%2Fa%20b%3Fc%3Dd%26e%2F%C3%A9~-_.");
}

#[test]
fn test_schedule_success() {
    let client = client();
    let request = ScheduleMessageRequest {
        to: "+15551234567".to_string(),
        text: "Reminder".to_string(),
        scheduled_at: "2025-01-20T10:00:00Z".to_string(),
        from: None,
    };
    let prepared = client.messages().schedule(&request, "{}".to_string()).unwrap();
    assert_eq!(prepared.method, Method::Post);
    assert_eq!(prepared.url, "http://mock/messages/schedule");
    assert_eq!(prepared.body.as_deref(), Some("{}"));
}

#[test]
fn test_schedule_invalid_phone() {
    let client = client();
    let request = ScheduleMessageRequest {
        to: "invalid".to_string(),
        text: "Test".to_string(),
        scheduled_at: "2025-01-20T10:00:00Z".to_string(),
        from: None,
    };
    let message = validation_message(client.messages().schedule(&request, String::new()));
    assert!(message.contains("Invalid phone number format"));
}

#[test]
fn test_schedule_empty_text() {
    let client = client();
    let request = ScheduleMessageRequest {
        to: "+15551234567".to_string(),
        text: "".to_string(),
        scheduled_at: "2025-01-20T10:00:00Z".to_string(),
        from: None,
    };
    let message = validation_message(client.messages().schedule(&request, String::new()));
    assert_eq!(message, "Message text is required");
}

#[test]
fn test_schedule_text_too_long() {
    let client = client();
    let request = ScheduleMessageRequest {
        to: "+15551234567".to_string(),
        text: "a".repeat(1601),
        scheduled_at: "2025-01-20T10:00:00Z".to_string(),
        from: None,
    };
    let message = validation_message(client.messages().schedule(&request, String::new()));
    assert!(message.contains("exceeds maximum length"));
}

#[test]
fn test_schedule_empty_scheduled_at() {
    let client = client();
    let request = ScheduleMessageRequest {
        to: "+15551234567".to_string(),
        text: "Test".to_string(),
        scheduled_at: "".to_string(),
        from: None,
    };
    let message = validation_message(client.messages().schedule(&request, String::new()));
    assert_eq!(message, "scheduled_at is required");
}

#[test]
fn test_list_scheduled_success() {
    let client = client();
    let request = client.messages().list_scheduled(None);
    assert_eq!(request.url, "http://mock/messages/scheduled");
    assert!(request.query.is_empty());
}

#[test]
fn test_list_scheduled_with_options() {
    let client = client();
    let options = ListScheduledMessagesOptions::new()
        .limit(50)
        .offset(10)
        .status(ScheduledMessageStatus::Scheduled);
    let request = client.messages().list_scheduled(Some(options));
    assert_eq!(
        request.query,
        vec![pair("limit", "50"), pair("offset", "10"), pair("status", "scheduled")]
    );
}

#[test]
fn test_get_scheduled_success() {
    let client = client();
    let request = client.messages().get_scheduled("sched_abc123").unwrap();
    assert_eq!(request.method, Method::Get);
    assert_eq!(request.url, "http://mock/messages/scheduled/sched_abc123");
}

#[test]
fn test_get_scheduled_empty_id() {
    let client = client();
    assert_eq!(
        validation_message(client.messages().get_scheduled("")),
        "Scheduled message ID is required"
    );
}

#[test]
fn test_cancel_scheduled_success() {
    let client = client();
    let request = client.messages().cancel_scheduled("sched/1").unwrap();
    assert_eq!(request.method, Method::Delete);
    assert_eq!(request.url, "http://mock/messages/scheduled/sched%2F1");
    assert_eq!(request.body, None);
}

#[test]
fn test_cancel_scheduled_empty_id() {
    let client = client();
    assert_eq!(
        validation_message(client.messages().cancel_scheduled("")),
        "Scheduled message ID is required"
    );
}

#[test]
fn test_send_batch_success() {
    let client = client();
    let request = SendBatchRequest {
        messages: vec![item("+15551234567", "Hello Alice!"), item("+15559876543", "Hello Bob!")],
        from: None,
    };
    let prepared = client.messages().send_batch(&request, "[]".to_string()).unwrap();
    assert_eq!(prepared.method, Method::Post);
    assert_eq!(prepared.url, "http://mock/messages/batch");
    assert_eq!(prepared.body.as_deref(), Some("[]"));
}

#[test]
fn test_send_batch_empty_messages() {
    let client = client();
    let request = SendBatchRequest { messages: vec![], from: None };
    assert_eq!(
        validation_message(client.messages().send_batch(&request, String::new())),
        "Messages array is required"
    );
}

#[test]
fn test_send_batch_invalid_phone() {
    let client = client();
    let request = SendBatchRequest {
        messages: vec![item("+15551234567", "Valid"), item("invalid", "Hello")],
        from: None,
    };
    assert_eq!(
        validation_message(client.messages().send_batch(&request, String::new())),
        "Invalid phone number at index 1"
    );
}

#[test]
fn test_send_batch_invalid_text() {
    let client = client();
    let request = SendBatchRequest {
        messages: vec![item("+15551234567", "Valid"), item("+15559876543", "")],
        from: None,
    };
    assert_eq!(
        validation_message(client.messages().send_batch(&request, String::new())),
        "Invalid message text at index 1"
    );
}

#[test]
fn test_send_batch_text_too_long() {
    let client = client();
    let request =
        SendBatchRequest { messages: vec![item("+15551234567", &"a".repeat(1601))], from: None };
    assert_eq!(
        validation_message(client.messages().send_batch(&request, String::new())),
        "Invalid message text at index 0"
    );
}

#[test]
fn batch_names_the_first_fault() {
    let mut messages: Vec<BatchMessageItem> =
        (0..12).map(|_| item("+15551234567", "ok")).collect();
    messages[10] = item("nope", "");
    messages[11] = item("+15551234567", "");
    let request = SendBatchRequest { messages, from: None };
    assert_eq!(validation_message(validate_batch(&request)), "Invalid phone number at index 10");
    let client = client();
    assert_eq!(
        validation_message(client.messages().preview_batch(&request, String::new())),
        "Invalid phone number at index 10"
    );
}

#[test]
fn preview_batch_request() {
    let client = client();
    let request = SendBatchRequest { messages: vec![item("+15551234567", "Hi")], from: None };
    let prepared = client.messages().preview_batch(&request, "{}".to_string()).unwrap();
    assert_eq!(prepared.method, Method::Post);
    assert_eq!(prepared.url, "http://mock/messages/batch/preview");
}

#[test]
fn test_get_batch_success() {
    let client = client();
    let request = client.messages().get_batch("batch_abc123").unwrap();
    assert_eq!(request.method, Method::Get);
    assert_eq!(request.url, "http://mock/messages/batch/batch_abc123");
}

#[test]
fn test_get_batch_empty_id() {
    let client = client();
    assert_eq!(validation_message(client.messages().get_batch("")), "Batch ID is required");
}

#[test]
fn test_list_batches_success() {
    let client = client();
    let request = client.messages().list_batches(None);
    assert_eq!(request.url, "http://mock/messages/batches");
    assert!(request.query.is_empty());
}

#[test]
fn test_list_batches_with_options() {
    let client = client();
    let options = ListBatchesOptions::new().limit(50).offset(10).status(BatchStatus::Completed);
    let request = client.messages().list_batches(Some(options));
    assert_eq!(
        request.query,
        vec![pair("limit", "50"), pair("offset", "10"), pair("status", "completed")]
    );
}

#[test]
fn test_iter_success() {
    let client = client();
    let pager = client.messages().iter(None);
    assert_eq!(pager.offset, 0);
    assert_eq!(pager.batch_size, 100);
    let options = pager.page_options();
    assert_eq!(options.limit, Some(100));
    assert_eq!(options.offset, Some(0));
    assert_eq!(options.status, None);
    assert_eq!(options.to, None);
    // A short page ends the walk.
    assert!(pager.advance(2).is_none());
}

#[test]
fn test_iter_pagination() {
    let client = client();
    let pager = client.messages().iter(Some(ListMessagesOptions::new().limit(2)));
    assert_eq!(
        client.messages().list(Some(pager.page_options())).query,
        vec![pair("limit", "2"), pair("offset", "0")]
    );
    let pager = pager.advance(2).expect("a full page is followed by another");
    assert_eq!(pager.offset, 2);
    assert_eq!(pager.batch_size, 2);
    assert_eq!(
        client.messages().list(Some(pager.page_options())).query,
        vec![pair("limit", "2"), pair("offset", "2")]
    );
    assert!(pager.advance(1).is_none());
}

#[test]
fn test_iter_with_filter() {
    let client = client();
    let options = ListMessagesOptions::new()
        .limit(10)
        .offset(30)
        .status(MessageStatus::Delivered)
        .to("+15551234567");
    let pager = client.messages().iter(Some(options));
    let pager = pager.advance(10).unwrap();
    assert_eq!(pager.offset, 40);
    assert_eq!(pager.status, Some(MessageStatus::Delivered));
    assert_eq!(pager.to.as_deref(), Some("+15551234567"));
    assert_eq!(
        client.messages().list(Some(pager.page_options())).query,
        vec![
            pair("limit", "10"),
            pair("offset", "40"),
            pair("status", "delivered"),
            pair("to", "+15551234567"),
        ]
    );
}

#[test]
fn pager_asks_for_at_most_one_hundred() {
    let pager = MessagePager { offset: 0, batch_size: 250, status: None, to: None };
    assert_eq!(pager.page_options().limit, Some(100));
    assert!(pager.advance(100).is_none());
    let empty = MessagePager { offset: 7, batch_size: 5, status: None, to: None };
    assert!(empty.advance(0).is_none());
}

//! Messages, scheduled messages and batches: what is sent to the API and
//! what it answers, with the options for listing them.

use vstd::prelude::*;
use crate::text::{
    clamp_limit, optional_decimal, optional_pair, pairs_text, push_number, push_text,
};

verus! {

/// Message delivery status.
#[derive(Debug, Clone, Copy, PartialEq, Eq, Structural)]
pub enum MessageStatus {
    /// Message is queued for delivery.
    Queued,
    /// Message is being sent.
    Sending,
    /// Message was sent to carrier.
    Sent,
    /// Message was delivered.
    Delivered,
    /// Message delivery failed.
    Failed,
}

impl MessageStatus {
    /// The tag of the status on the wire.
    pub open spec fn spec_tag(self) -> Seq<char> {
        match self {
            MessageStatus::Queued => "queued"@,
            MessageStatus::Sending => "sending"@,
            MessageStatus::Sent => "sent"@,
            MessageStatus::Delivered => "delivered"@,
            MessageStatus::Failed => "failed"@,
        }
    }

    /// The tag of the status on the wire.
    pub fn as_str(&self) -> (tag: &'static str)
        ensures
            tag@ == self.spec_tag(),
    {
        match self {
            MessageStatus::Queued => "queued",
            MessageStatus::Sending => "sending",
            MessageStatus::Sent => "sent",
            MessageStatus::Delivered => "delivered",
            MessageStatus::Failed => "failed",
        }
    }

    /// The tag of the status on the wire, as an owned text.
    pub fn to_string(&self) -> (tag: String)
        ensures
            tag@ == self.spec_tag(),
    {
        self.as_str().to_string()
    }
}

/// An SMS message.
#[derive(Debug, Clone)]
pub struct Message {
    /// Unique message identifier.
    pub id: String,
    /// Recipient phone number in E.164 format.
    pub to: String,
    /// Sender ID or phone number.
    pub from: Option<String>,
    /// Message content.
    pub text: String,
    /// Delivery status.
    pub status: MessageStatus,
    /// Error message (if failed).
    pub error: Option<String>,
    /// Number of SMS segments.
    pub segments: i32,
    /// Credits consumed.
    pub credits_used: i32,
    /// Whether sent in sandbox mode.
    pub is_sandbox: bool,
    /// Creation timestamp.
    pub created_at: Option<String>,
    /// Delivery timestamp (if delivered).
    pub delivered_at: Option<String>,
}

impl Message {
    /// Returns true if the message was delivered.
    pub fn is_delivered(&self) -> (yes: bool)
        ensures
            yes == (self.status == MessageStatus::Delivered),
    {
        self.status == MessageStatus::Delivered
    }

    /// Returns true if the message failed.
    pub fn is_failed(&self) -> (yes: bool)
        ensures
            yes == (self.status == MessageStatus::Failed),
    {
        self.status == MessageStatus::Failed
    }

    /// Returns true if the message is still on its way: queued, being sent,
    /// or sent to the carrier.
    pub fn is_pending(&self) -> (yes: bool)
        ensures
            yes == (self.status == MessageStatus::Queued || self.status == MessageStatus::Sending
                || self.status == MessageStatus::Sent),
    {
        match self.status {
            MessageStatus::Queued => true,
            MessageStatus::Sending => true,
            MessageStatus::Sent => true,
            _ => false,
        }
    }
}

/// Request to send an SMS message.
#[derive(Debug, Clone)]
pub struct SendMessageRequest {
    /// Recipient phone number in E.164 format.
    pub to: String,
    /// Message content (max 1600 characters).
    pub text: String,
}

/// Options for listing messages.
#[derive(Debug, Clone)]
pub struct ListMessagesOptions {
    /// Maximum messages to return (default: 20, max: 100).
    pub limit: Option<u32>,
    /// Number of messages to skip.
    pub offset: Option<u32>,
    /// Filter by status.
    pub status: Option<MessageStatus>,
    /// Filter by recipient phone number.
    pub to: Option<String>,
}

impl Default for ListMessagesOptions {
    fn default() -> (options: Self)
        ensures
            options.limit is None,
            options.offset is None,
            options.status is None,
            options.to is None,
    {
        ListMessagesOptions { limit: None, offset: None, status: None, to: None }
    }
}

impl ListMessagesOptions {
    /// Creates options that ask for nothing in particular.
    pub fn new() -> (options: Self)
        ensures
            options.limit is None,
            options.offset is None,
            options.status is None,
            options.to is None,
    {
        ListMessagesOptions { limit: None, offset: None, status: None, to: None }
    }

    /// Sets the page size; more than 100 becomes 100.
    pub fn limit(self, limit: u32) -> (options: Self)
        ensures
            options.limit == Some(clamp_limit(limit)),
            options.offset == self.offset,
            options.status == self.status,
            options.to == self.to,
    {
        let capped: u32 = if limit < 100 { limit } else { 100 };
        ListMessagesOptions {
            limit: Some(capped),
            offset: self.offset,
            status: self.status,
            to: self.to,
        }
    }

    /// Sets the number of messages to skip.
    pub fn offset(self, offset: u32) -> (options: Self)
        ensures
            options.limit == self.limit,
            options.offset == Some(offset),
            options.status == self.status,
            options.to == self.to,
    {
        ListMessagesOptions {
            limit: self.limit,
            offset: Some(offset),
            status: self.status,
            to: self.to,
        }
    }

    /// Sets the status filter.
    pub fn status(self, status: MessageStatus) -> (options: Self)
        ensures
            options.limit == self.limit,
            options.offset == self.offset,
            options.status == Some(status),
            options.to == self.to,
    {
        ListMessagesOptions {
            limit: self.limit,
            offset: self.offset,
            status: Some(status),
            to: self.to,
        }
    }

    /// Sets the recipient filter.
    pub fn to(self, to: &str) -> (options: Self)
        ensures
            options.limit == self.limit,
            options.offset == self.offset,
            options.status == self.status,
            options.to is Some,
            options.to->0@ == to@,
    {
        ListMessagesOptions {
            limit: self.limit,
            offset: self.offset,
            status: self.status,
            to: Some(to.to_string()),
        }
    }

    /// The query parameters that the options stand for: `limit`, `offset`,
    /// `status` and `to`, in this order, each only where it is set.
    pub open spec fn spec_query_params(&self) -> Seq<(Seq<char>, Seq<char>)> {
        optional_pair("limit"@, optional_decimal(self.limit)) + optional_pair(
            "offset"@,
            optional_decimal(self.offset),
        ) + optional_pair(
            "status"@,
            match self.status {
                Some(s) => Some(s.spec_tag()),
                None => None,
            },
        ) + optional_pair(
            "to"@,
            match self.to {
                Some(t) => Some(t@),
                None => None,
            },
        )
    }

    /// Writes the options as query parameters.
    pub fn to_query_params(&self) -> (params: Vec<(String, String)>)
        ensures
            pairs_text(params@) == self.spec_query_params(),
    {
        let mut params: Vec<(String, String)> = Vec::new();
        assert(pairs_text(params@) =~= Seq::empty());
        push_number(&mut params, "limit", self.limit);
        push_number(&mut params, "offset", self.offset);
        let status: Option<&str> = match &self.status {
            Some(s) => Some(s.as_str()),
            None => None,
        };
        push_text(&mut params, "status", status);
        let to: Option<&str> = match &self.to {
            Some(t) => Some(t.as_str()),
            None => None,
        };
        push_text(&mut params, "to", to);
        assert(pairs_text(params@) =~= self.spec_query_params());
        params
    }
}

/// Paginated list of messages.
#[derive(Debug, Clone)]
pub struct MessageList {
    /// Messages in this page.
    pub data: Vec<Message>,
    /// Total count of messages matching the query.
    pub count: i32,
}

impl MessageList {
    /// Returns the number of messages in this page.
    pub fn len(&self) -> (n: usize)
        ensures
            n == self.data@.len(),
    {
        self.data.len()
    }

    /// Returns true if the page holds no message.
    pub fn is_empty(&self) -> (empty: bool)
        ensures
            empty == (self.data@.len() == 0),
    {
        self.data.len() == 0
    }

    /// Returns the total count of messages.
    pub fn total(&self) -> (count: i32)
        ensures
            count == self.count,
    {
        self.count
    }

    /// Returns the first message of the page.
    pub fn first(&self) -> (message: Option<&Message>)
        ensures
            self.data@.len() == 0 ==> message is None,
            self.data@.len() > 0 ==> message == Some(&self.data@[0]),
    {
        if self.data.len() == 0 {
            None
        } else {
            Some(&self.data[0])
        }
    }

    /// Returns the last message of the page.
    pub fn last(&self) -> (message: Option<&Message>)
        ensures
            self.data@.len() == 0 ==> message is None,
            self.data@.len() > 0 ==> message == Some(&self.data@[self.data@.len() - 1]),
    {
        if self.data.len() == 0 {
            None
        } else {
            Some(&self.data[self.data.len() - 1])
        }
    }

    /// Returns the messages of the page, in order.
    pub fn iter(&self) -> (messages: &Vec<Message>)
        ensures
            *messages == self.data,
    {
        &self.data
    }
}

/// Status of a scheduled message.
#[derive(Debug, Clone, Copy, PartialEq, Eq, Structural)]
pub enum ScheduledMessageStatus {
    /// Message is scheduled for future delivery.
    Scheduled,
    /// Message was sent.
    Sent,
    /// Message was cancelled.
    Cancelled,
    /// Message failed to send.
    Failed,
}

impl ScheduledMessageStatus {
    /// The tag of the value on the wire.
    pub open spec fn spec_tag(self) -> Seq<char> {
        match self {
            ScheduledMessageStatus::Scheduled => "scheduled"@,
            ScheduledMessageStatus::Sent => "sent"@,
            ScheduledMessageStatus::Cancelled => "cancelled"@,
            ScheduledMessageStatus::Failed => "failed"@,
        }
    }

    /// The tag of the value on the wire.
    pub fn as_str(&self) -> (tag: &'static str)
        ensures
            tag@ == self.spec_tag(),
    {
        match self {
            ScheduledMessageStatus::Scheduled => "scheduled",
            ScheduledMessageStatus::Sent => "sent",
            ScheduledMessageStatus::Cancelled => "cancelled",
            ScheduledMessageStatus::Failed => "failed",
        }
    }

    /// The tag of the value on the wire, as an owned text.
    pub fn to_string(&self) -> (tag: String)
        ensures
            tag@ == self.spec_tag(),
    {
        self.as_str().to_string()
    }
}

/// A scheduled SMS message.
#[derive(Debug, Clone)]
pub struct ScheduledMessage {
    /// Unique scheduled message identifier.
    pub id: String,
    /// Recipient phone number in E.164 format.
    pub to: String,
    /// Sender ID or phone number.
    pub from: Option<String>,
    /// Message content.
    pub text: String,
    /// When the message is scheduled to be sent (ISO 8601).
    pub scheduled_at: String,
    /// Scheduled message status.
    pub status: ScheduledMessageStatus,
    /// Credits reserved for this message.
    pub credits_reserved: i32,
    /// Creation timestamp.
    pub created_at: Option<String>,
    /// When the message was sent.
    pub sent_at: Option<String>,
    /// When the message was cancelled.
    pub cancelled_at: Option<String>,
    /// Message ID after sending.
    pub message_id: Option<String>,
}

impl ScheduledMessage {
    /// Returns true if the message is still scheduled.
    pub fn is_scheduled(&self) -> (yes: bool)
        ensures
            yes == (self.status == ScheduledMessageStatus::Scheduled),
    {
        self.status == ScheduledMessageStatus::Scheduled
    }

    /// Returns true if the message was sent.
    pub fn is_sent(&self) -> (yes: bool)
        ensures
            yes == (self.status == ScheduledMessageStatus::Sent),
    {
        self.status == ScheduledMessageStatus::Sent
    }

    /// Returns true if the message was cancelled.
    pub fn is_cancelled(&self) -> (yes: bool)
        ensures
            yes == (self.status == ScheduledMessageStatus::Cancelled),
    {
        self.status == ScheduledMessageStatus::Cancelled
    }
}

/// Request to schedule an SMS message.
#[derive(Debug, Clone)]
pub struct ScheduleMessageRequest {
    /// Recipient phone number in E.164 format.
    pub to: String,
    /// Message content (max 1600 characters).
    pub text: String,
    /// When to send the message (ISO 8601).
    pub scheduled_at: String,
    /// Sender ID or phone number (optional).
    pub from: Option<String>,
}

/// Options for listing scheduled messages.
#[derive(Debug, Clone)]
pub struct ListScheduledMessagesOptions {
    /// Maximum messages to return (default: 20, max: 100).
    pub limit: Option<u32>,
    /// Number of messages to skip.
    pub offset: Option<u32>,
    /// Filter by status.
    pub status: Option<ScheduledMessageStatus>,
}

impl Default for ListScheduledMessagesOptions {
    fn default() -> (options: Self)
        ensures
            options.limit is None,
            options.offset is None,
            options.status is None,
    {
        ListScheduledMessagesOptions { limit: None, offset: None, status: None }
    }
}

impl ListScheduledMessagesOptions {
    /// Creates options that ask for nothing in particular.
    pub fn new() -> (options: Self)
        ensures
            options.limit is None,
            options.offset is None,
            options.status is None,
    {
        ListScheduledMessagesOptions { limit: None, offset: None, status: None }
    }

    /// Sets the page size; more than 100 becomes 100.
    pub fn limit(self, limit: u32) -> (options: Self)
        ensures
            options.limit == Some(clamp_limit(limit)),
            options.offset == self.offset,
            options.status == self.status,
    {
        let capped: u32 = if limit < 100 {
            limit
        } else {
            100
        };
        ListScheduledMessagesOptions {
            limit: Some(capped),
            offset: self.offset,
            status: self.status,
        }
    }

    /// Sets the number of messages to skip.
    pub fn offset(self, offset: u32) -> (options: Self)
        ensures
            options.limit == self.limit,
            options.offset == Some(offset),
            options.status == self.status,
    {
        ListScheduledMessagesOptions {
            limit: self.limit,
            offset: Some(offset),
            status: self.status,
        }
    }

    /// Sets the status filter.
    pub fn status(self, status: ScheduledMessageStatus) -> (options: Self)
        ensures
            options.limit == self.limit,
            options.offset == self.offset,
            options.status == Some(status),
    {
        ListScheduledMessagesOptions {
            limit: self.limit,
            offset: self.offset,
            status: Some(status),
        }
    }

    /// The query parameters that the options stand for: `limit`, `offset` and `status`, in this
    /// order, each only where it is set.
    pub open spec fn spec_query_params(&self) -> Seq<(Seq<char>, Seq<char>)> {
        optional_pair("limit"@, optional_decimal(self.limit)) + optional_pair(
            "offset"@,
            optional_decimal(self.offset),
        ) + optional_pair(
            "status"@,
            match self.status {
                Some(s) => Some(s.spec_tag()),
                None => None,
            },
        )
    }

    /// Writes the options as query parameters.
    pub fn to_query_params(&self) -> (params: Vec<(String, String)>)
        ensures
            pairs_text(params@) == self.spec_query_params(),
    {
        let mut params: Vec<(String, String)> = Vec::new();
        assert(pairs_text(params@) =~= Seq::empty());
        push_number(&mut params, "limit", self.limit);
        push_number(&mut params, "offset", self.offset);
        let status: Option<&str> = match &self.status {
            Some(s) => Some(s.as_str()),
            None => None,
        };
        push_text(&mut params, "status", status);
        assert(pairs_text(params@) =~= self.spec_query_params());
        params
    }
}

/// Paginated list of scheduled messages.
#[derive(Debug, Clone)]
pub struct ScheduledMessageList {
    /// Scheduled messages in this page.
    pub data: Vec<ScheduledMessage>,
    /// Total count of entries matching the query.
    pub count: i32,
}

impl ScheduledMessageList {
    /// Returns the number of entries in this page.
    pub fn len(&self) -> (n: usize)
        ensures
            n == self.data@.len(),
    {
        self.data.len()
    }

    /// Returns true if the page holds no entry.
    pub fn is_empty(&self) -> (empty: bool)
        ensures
            empty == (self.data@.len() == 0),
    {
        self.data.len() == 0
    }

    /// Returns the total count.
    pub fn total(&self) -> (count: i32)
        ensures
            count == self.count,
    {
        self.count
    }
}

/// Response from cancelling a scheduled message.
#[derive(Debug, Clone)]
pub struct CancelScheduledMessageResponse {
    /// Scheduled message ID.
    pub id: String,
    /// New status (cancelled).
    pub status: ScheduledMessageStatus,
    /// Credits refunded.
    pub credits_refunded: i32,
}

/// Status of a message batch.
#[derive(Debug, Clone, Copy, PartialEq, Eq, Structural)]
pub enum BatchStatus {
    /// Batch is being processed.
    Processing,
    /// Batch completed successfully.
    Completed,
    /// Some messages in batch failed.
    PartiallyCompleted,
    /// Batch failed.
    Failed,
}

impl BatchStatus {
    /// The tag of the value on the wire.
    pub open spec fn spec_tag(self) -> Seq<char> {
        match self {
            BatchStatus::Processing => "processing"@,
            BatchStatus::Completed => "completed"@,
            BatchStatus::PartiallyCompleted => "partially_completed"@,
            BatchStatus::Failed => "failed"@,
        }
    }

    /// The tag of the value on the wire.
    pub fn as_str(&self) -> (tag: &'static str)
        ensures
            tag@ == self.spec_tag(),
    {
        match self {
            BatchStatus::Processing => "processing",
            BatchStatus::Completed => "completed",
            BatchStatus::PartiallyCompleted => "partially_completed",
            BatchStatus::Failed => "failed",
        }
    }

    /// The tag of the value on the wire, as an owned text.
    pub fn to_string(&self) -> (tag: String)
        ensures
            tag@ == self.spec_tag(),
    {
        self.as_str().to_string()
    }
}

/// A single message in a batch request.
#[derive(Debug, Clone)]
pub struct BatchMessageItem {
    /// Recipient phone number in E.164 format.
    pub to: String,
    /// Message content (max 1600 characters).
    pub text: String,
}

/// Request to send batch messages.
#[derive(Debug, Clone)]
pub struct SendBatchRequest {
    /// Messages to send.
    pub messages: Vec<BatchMessageItem>,
    /// Sender ID or phone number (optional, applies to all).
    pub from: Option<String>,
}

/// Result of a single message in a batch.
#[derive(Debug, Clone)]
pub struct BatchMessageResult {
    /// Recipient phone number.
    pub to: String,
    /// Message ID if successful.
    pub message_id: Option<String>,
    /// Message status.
    pub status: String,
    /// Error message if failed.
    pub error: Option<String>,
}

/// Response from sending batch messages.
#[derive(Debug, Clone)]
pub struct BatchMessageResponse {
    /// Unique batch identifier.
    pub batch_id: String,
    /// Batch status.
    pub status: BatchStatus,
    /// Total messages in batch.
    pub total: i32,
    /// Messages queued.
    pub queued: i32,
    /// Messages sent.
    pub sent: i32,
    /// Messages failed.
    pub failed: i32,
    /// Total credits used.
    pub credits_used: i32,
    /// Results for each message.
    pub messages: Vec<BatchMessageResult>,
    /// Creation timestamp.
    pub created_at: Option<String>,
    /// Completion timestamp.
    pub completed_at: Option<String>,
}

impl BatchMessageResponse {
    /// Returns true if the batch is still processing.
    pub fn is_processing(&self) -> (yes: bool)
        ensures
            yes == (self.status == BatchStatus::Processing),
    {
        self.status == BatchStatus::Processing
    }

    /// Returns true if the batch completed.
    pub fn is_completed(&self) -> (yes: bool)
        ensures
            yes == (self.status == BatchStatus::Completed),
    {
        self.status == BatchStatus::Completed
    }

    /// Returns true if the batch failed.
    pub fn is_failed(&self) -> (yes: bool)
        ensures
            yes == (self.status == BatchStatus::Failed),
    {
        self.status == BatchStatus::Failed
    }
}

/// Options for listing batches.
#[derive(Debug, Clone)]
pub struct ListBatchesOptions {
    /// Maximum batches to return (default: 20, max: 100).
    pub limit: Option<u32>,
    /// Number of batches to skip.
    pub offset: Option<u32>,
    /// Filter by status.
    pub status: Option<BatchStatus>,
}

impl Default for ListBatchesOptions {
    fn default() -> (options: Self)
        ensures
            options.limit is None,
            options.offset is None,
            options.status is None,
    {
        ListBatchesOptions { limit: None, offset: None, status: None }
    }
}

impl ListBatchesOptions {
    /// Creates options that ask for nothing in particular.
    pub fn new() -> (options: Self)
        ensures
            options.limit is None,
            options.offset is None,
            options.status is None,
    {
        ListBatchesOptions { limit: None, offset: None, status: None }
    }

    /// Sets the page size; more than 100 becomes 100.
    pub fn limit(self, limit: u32) -> (options: Self)
        ensures
            options.limit == Some(clamp_limit(limit)),
            options.offset == self.offset,
            options.status == self.status,
    {
        let capped: u32 = if limit < 100 {
            limit
        } else {
            100
        };
        ListBatchesOptions {
            limit: Some(capped),
            offset: self.offset,
            status: self.status,
        }
    }

    /// Sets the number of batches to skip.
    pub fn offset(self, offset: u32) -> (options: Self)
        ensures
            options.limit == self.limit,
            options.offset == Some(offset),
            options.status == self.status,
    {
        ListBatchesOptions {
            limit: self.limit,
            offset: Some(offset),
            status: self.status,
        }
    }

    /// Sets the status filter.
    pub fn status(self, status: BatchStatus) -> (options: Self)
        ensures
            options.limit == self.limit,
            options.offset == self.offset,
            options.status == Some(status),
    {
        ListBatchesOptions {
            limit: self.limit,
            offset: self.offset,
            status: Some(status),
        }
    }

    /// The query parameters that the options stand for: `limit`, `offset` and `status`, in this
    /// order, each only where it is set.
    pub open spec fn spec_query_params(&self) -> Seq<(Seq<char>, Seq<char>)> {
        optional_pair("limit"@, optional_decimal(self.limit)) + optional_pair(
            "offset"@,
            optional_decimal(self.offset),
        ) + optional_pair(
            "status"@,
            match self.status {
                Some(s) => Some(s.spec_tag()),
                None => None,
            },
        )
    }

    /// Writes the options as query parameters.
    pub fn to_query_params(&self) -> (params: Vec<(String, String)>)
        ensures
            pairs_text(params@) == self.spec_query_params(),
    {
        let mut params: Vec<(String, String)> = Vec::new();
        assert(pairs_text(params@) =~= Seq::empty());
        push_number(&mut params, "limit", self.limit);
        push_number(&mut params, "offset", self.offset);
        let status: Option<&str> = match &self.status {
            Some(s) => Some(s.as_str()),
            None => None,
        };
        push_text(&mut params, "status", status);
        assert(pairs_text(params@) =~= self.spec_query_params());
        params
    }
}

/// Paginated list of batches.
#[derive(Debug, Clone)]
pub struct BatchList {
    /// Batches in this page.
    pub data: Vec<BatchMessageResponse>,
    /// Total count of entries matching the query.
    pub count: i32,
}

impl BatchList {
    /// Returns the number of entries in this page.
    pub fn len(&self) -> (n: usize)
        ensures
            n == self.data@.len(),
    {
        self.data.len()
    }

    /// Returns true if the page holds no entry.
    pub fn is_empty(&self) -> (empty: bool)
        ensures
            empty == (self.data@.len() == 0),
    {
        self.data.len() == 0
    }

    /// Returns the total count.
    pub fn total(&self) -> (count: i32)
        ensures
            count == self.count,
    {
        self.count
    }
}

} // verus!

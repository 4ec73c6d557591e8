//! Client library for the Sendly SMS API.
//!
//! The crate holds the decisions of the client: how a request is put
//! together, which failures are tried again and after what delay, how a
//! response becomes a typed error, how inbound webhooks are authenticated,
//! and the request and response models with their validation.  Sending bytes
//! over the network is left to the caller's transport.

pub mod account_resource;
pub mod campaigns;
pub mod client;
pub mod contacts;
pub mod error;
pub mod messages;
pub mod models;
pub mod text;
pub mod verify;
pub mod webhook_resource;
pub mod webhooks;

pub use client::{Sendly, SendlyConfig};
pub use error::{ApiErrorResponse, Error};
pub use messages::Messages;
pub use models::{
    BatchList, BatchMessageItem, BatchMessageResponse, BatchMessageResult, BatchStatus,
    CancelScheduledMessageResponse, ListBatchesOptions, ListMessagesOptions,
    ListScheduledMessagesOptions, Message, MessageList, MessageStatus, ScheduleMessageRequest,
    ScheduledMessage, ScheduledMessageList, ScheduledMessageStatus, SendBatchRequest,
    SendMessageRequest,
};
pub use webhooks::{
    WebhookError, WebhookEvent, WebhookEventType, WebhookMessageData, WebhookMessageStatus,
    Webhooks,
};

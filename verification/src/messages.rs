//! The messages resource: what is checked before a message leaves, which
//! request each operation sends, and how a listing is walked page by page.

use vstd::prelude::*;
use vstd::utf8::encode_utf8;
use crate::client::{Method, Request, Sendly};
use crate::error::{Error, ErrorView};
use crate::models::{
    BatchMessageItem, ListBatchesOptions, ListMessagesOptions, ListScheduledMessagesOptions,
    MessageStatus, ScheduleMessageRequest, SendBatchRequest, SendMessageRequest,
};
use crate::text::{clamp_limit, concat, decimal_text, pairs_text, u64_to_string};

verus! {

/// The pattern of a phone number in E.164 format: a plus sign, a digit other
/// than zero, then one to fourteen digits.
pub const PHONE_PATTERN: &'static str = "^\\+[1-9]\\d{1,14}$";

/// The largest number of bytes that a message text may hold.
pub const MAX_TEXT_LENGTH: usize = 1600;

/// Whether `pattern`, read as a regular expression, matches somewhere in
/// `haystack`; `None` where `pattern` is no regular expression.
pub uninterp spec fn regex_match_of(pattern: Seq<char>, haystack: Seq<char>) -> Option<bool>;

/// Tests a text against a regular expression.
///
/// Trusted: compiles the pattern with `regex::Regex::new` and searches the
/// text with `Regex::is_match`.  The contract names the answer; it is `None`
/// where the pattern does not compile.
#[verifier::external_body]
fn regex_is_match(pattern: &str, haystack: &str) -> (found: Option<bool>)
    ensures
        found == regex_match_of(pattern@, haystack@),
{
    match regex::Regex::new(pattern) {
        Ok(compiled) => Some(compiled.is_match(haystack)),
        Err(_) => None,
    }
}

/// Whether a byte stays as it is in a URL path segment: an ASCII letter, a
/// digit, or one of `-`, `.`, `_`, `~`.
pub open spec fn is_unreserved(byte: u8) -> bool {
    ||| (48 <= byte && byte <= 57)
    ||| (65 <= byte && byte <= 90)
    ||| (97 <= byte && byte <= 122)
    ||| byte == 45
    ||| byte == 46
    ||| byte == 95
    ||| byte == 126
}

/// The upper-case hexadecimal digit for a value below sixteen.
pub open spec fn upper_hex_digit(nibble: u8) -> char {
    if nibble < 10 {
        (48 + nibble) as char
    } else {
        (55 + nibble) as char
    }
}

/// The percent-encoding of a run of bytes: an unreserved byte stands for
/// itself, any other becomes `%` and two upper-case hexadecimal digits.
pub open spec fn percent_encoded(bytes: Seq<u8>) -> Seq<char>
    decreases bytes.len(),
{
    if bytes.len() == 0 {
        Seq::empty()
    } else if is_unreserved(bytes.last()) {
        percent_encoded(bytes.drop_last()).push(bytes.last() as char)
    } else {
        percent_encoded(bytes.drop_last()).push('%').push(
            upper_hex_digit(bytes.last() / 16),
        ).push(upper_hex_digit(bytes.last() % 16))
    }
}

/// Percent-encodes a text for use as a path segment.
///
/// Trusted: wraps `urlencoding::encode`, which keeps ASCII letters, digits
/// and `-`, `.`, `_`, `~`, and writes every other byte of the UTF-8 text as
/// `%` followed by two upper-case hexadecimal digits.
#[verifier::external_body]
fn url_encode(text: &str) -> (encoded: String)
    ensures
        encoded@ == percent_encoded(encode_utf8(text@)),
{
    urlencoding::encode(text).into_owned()
}

/// Whether a phone number is accepted.
pub open spec fn phone_accepted(phone: Seq<char>) -> bool {
    regex_match_of(PHONE_PATTERN@, phone) == Some(true)
}

/// Whether a message text is accepted: not empty, and no longer than
/// [`MAX_TEXT_LENGTH`] bytes.
pub open spec fn text_accepted(text: Seq<char>) -> bool {
    text.len() > 0 && encode_utf8(text).len() <= MAX_TEXT_LENGTH
}

/// A validation error with the given message.
pub open spec fn validation(message: Seq<char>) -> ErrorView {
    ErrorView::Validation { message }
}

/// The message for a phone number that is not in E.164 format.
pub open spec fn invalid_phone_message() -> Seq<char> {
    "Invalid phone number format. Use E.164 format (e.g., +15551234567)"@
}

/// The message for a text that was refused.
pub open spec fn invalid_text_message(text: Seq<char>) -> Seq<char> {
    if text.len() == 0 {
        "Message text is required"@
    } else {
        "Message text exceeds maximum length (1600 characters)"@
    }
}

fn invalid(message: &str) -> (error: Error)
    ensures
        error@ == validation(message@),
{
    Error::Validation { message: message.to_string() }
}

/// Judges what the phone pattern found: only a match is accepted.
pub fn check_phone_match(matched: Option<bool>) -> (res: Result<(), Error>)
    ensures
        res is Ok <==> matched == Some(true),
        res is Err ==> res->Err_0@ == validation(invalid_phone_message()),
{
    match matched {
        Some(true) => Ok(()),
        _ => Err(invalid("Invalid phone number format. Use E.164 format (e.g., +15551234567)")),
    }
}

/// Checks that a phone number is in E.164 format.
pub fn validate_phone(phone: &str) -> (res: Result<(), Error>)
    ensures
        res is Ok <==> phone_accepted(phone@),
        res is Err ==> res->Err_0@ == validation(invalid_phone_message()),
{
    check_phone_match(regex_is_match(PHONE_PATTERN, phone))
}

/// Checks that a message text is not empty and not too long.
pub fn validate_text(text: &str) -> (res: Result<(), Error>)
    ensures
        res is Ok <==> text_accepted(text@),
        res is Err ==> res->Err_0@ == validation(invalid_text_message(text@)),
{
    if text.is_empty() {
        return Err(invalid("Message text is required"));
    }
    if text.as_bytes().len() > MAX_TEXT_LENGTH {
        return Err(invalid("Message text exceeds maximum length (1600 characters)"));
    }
    Ok(())
}

/// Whether a batch entry passes both checks.
pub open spec fn item_accepted(item: BatchMessageItem) -> bool {
    phone_accepted(item.to@) && text_accepted(item.text@)
}

/// The message for the batch entry at `index` that was refused: its phone
/// number is judged first.
pub open spec fn item_fault_message(item: BatchMessageItem, index: nat) -> Seq<char> {
    if !phone_accepted(item.to@) {
        "Invalid phone number at index "@ + decimal_text(index)
    } else {
        "Invalid message text at index "@ + decimal_text(index)
    }
}

/// Whether `error` is what a batch is refused with: an empty batch as such,
/// any other for its first entry that fails a check.
pub open spec fn batch_fault(messages: Seq<BatchMessageItem>, error: ErrorView) -> bool {
    if messages.len() == 0 {
        error == validation("Messages array is required"@)
    } else {
        exists|i: int|
            {
                &&& 0 <= i < messages.len()
                &&& forall|j: int| 0 <= j < i ==> item_accepted(#[trigger] messages[j])
                &&& !item_accepted(#[trigger] messages[i])
                &&& error == validation(item_fault_message(messages[i], i as nat))
            }
    }
}

/// Whether a batch is accepted: it holds an entry, and every entry passes.
pub open spec fn batch_accepted(messages: Seq<BatchMessageItem>) -> bool {
    messages.len() > 0 && forall|i: int|
        0 <= i < messages.len() ==> item_accepted(#[trigger] messages[i])
}

/// Checks a batch before it is sent: it must hold at least one message, and
/// every message a valid phone number and text.  The first entry that fails
/// is named by its index.
pub fn validate_batch(request: &SendBatchRequest) -> (res: Result<(), Error>)
    ensures
        res is Ok <==> batch_accepted(request.messages@),
        res is Err ==> batch_fault(request.messages@, res->Err_0@),
{
    if request.messages.len() == 0 {
        return Err(invalid("Messages array is required"));
    }
    let mut i: usize = 0;
    while i < request.messages.len()
        invariant
            i <= request.messages@.len(),
            request.messages@.len() > 0,
            forall|j: int| 0 <= j < i ==> item_accepted(#[trigger] request.messages@[j]),
        decreases request.messages@.len() - i,
    {
        let item = &request.messages[i];
        if validate_phone(item.to.as_str()).is_err() {
            let index = u64_to_string(i as u64);
            let message = concat("Invalid phone number at index ", index.as_str());
            let error = Error::Validation { message };
            assert(!item_accepted(request.messages@[i as int]));
            assert(error@ == validation(item_fault_message(request.messages@[i as int], i as nat)));
            return Err(error);
        }
        if validate_text(item.text.as_str()).is_err() {
            let index = u64_to_string(i as u64);
            let message = concat("Invalid message text at index ", index.as_str());
            let error = Error::Validation { message };
            assert(!item_accepted(request.messages@[i as int]));
            assert(error@ == validation(item_fault_message(request.messages@[i as int], i as nat)));
            return Err(error);
        }
        i += 1;
    }
    Ok(())
}

/// Where a listing of messages stands: the page to ask for next, and the
/// filters taken when the walk began.
#[derive(Debug)]
pub struct MessagePager {
    /// Number of messages to skip on the next page.
    pub offset: u32,
    /// Number of messages asked for on each page.
    pub batch_size: u32,
    /// Filter by status.
    pub status: Option<MessageStatus>,
    /// Filter by recipient phone number.
    pub to: Option<String>,
}

impl MessagePager {
    /// The options of the request for the next page.
    pub fn page_options(&self) -> (options: ListMessagesOptions)
        ensures
            options.limit == Some(clamp_limit(self.batch_size)),
            options.offset == Some(self.offset),
            options.status == self.status,
            options.to == self.to,
    {
        let mut options = ListMessagesOptions::new().limit(self.batch_size).offset(self.offset);
        if let Some(status) = self.status {
            options = options.status(status);
        }
        ListMessagesOptions {
            limit: options.limit,
            offset: options.offset,
            status: options.status,
            to: self.to.clone(),
        }
    }

    /// Whether a page of `page_len` messages is the last one: it is when it
    /// holds fewer messages than were asked for.
    pub open spec fn last_page(&self, page_len: usize) -> bool {
        page_len < self.batch_size
    }

    /// Moves on after a page of `page_len` messages: `None` where the page
    /// was the last one, else the pager for the page that follows, with the
    /// same filters.
    pub fn advance(self, page_len: usize) -> (next: Option<MessagePager>)
        requires
            !self.last_page(page_len) ==> self.offset + self.batch_size <= u32::MAX,
        ensures
            self.last_page(page_len) ==> next is None,
            !self.last_page(page_len) ==> next == Some(
                MessagePager {
                    offset: (self.offset + self.batch_size) as u32,
                    batch_size: self.batch_size,
                    status: self.status,
                    to: self.to,
                },
            ),
    {
        if page_len < self.batch_size as usize {
            None
        } else {
            Some(
                MessagePager {
                    offset: self.offset + self.batch_size,
                    batch_size: self.batch_size,
                    status: self.status,
                    to: self.to,
                },
            )
        }
    }
}

/// Messages resource for sending and managing SMS.
#[derive(Debug, Clone)]
pub struct Messages<'a> {
    client: &'a Sendly,
}

impl Sendly {
    /// Returns the messages resource.
    pub fn messages(&self) -> (resource: Messages<'_>)
        ensures
            resource.spec_client() == self,
    {
        Messages::new(self)
    }
}

impl<'a> Messages<'a> {
    /// The client that the resource sends through.
    pub closed spec fn spec_client(&self) -> &Sendly {
        self.client
    }

    /// Creates the resource of a client.
    pub fn new(client: &'a Sendly) -> (resource: Self)
        ensures
            resource.spec_client() == client,
    {
        Messages { client }
    }

    /// Prepares the sending of a message, whose JSON text is `body`.  The
    /// phone number is checked first, then the text.
    pub fn send(&self, request: &SendMessageRequest, body: String) -> (res: Result<Request, Error>)
        ensures
            res is Ok <==> phone_accepted(request.to@) && text_accepted(request.text@),
            res is Ok ==> self.spec_client().prepares(
                res->Ok_0,
                Method::Post,
                "/messages"@,
                Seq::empty(),
                Some(body@),
            ),
            res is Err ==> res->Err_0@ == validation(
                if !phone_accepted(request.to@) {
                    invalid_phone_message()
                } else {
                    invalid_text_message(request.text@)
                },
            ),
    {
        match validate_phone(request.to.as_str()) {
            Err(error) => { return Err(error); },
            Ok(_) => {},
        }
        match validate_text(request.text.as_str()) {
            Err(error) => { return Err(error); },
            Ok(_) => {},
        }
        Ok(self.client.post("/messages", body))
    }

    /// Prepares the sending of `text` to the phone number `to`; `body` is the
    /// JSON text of the message.  The checks are those of [`Messages::send`].
    pub fn send_to(&self, to: &str, text: &str, body: String) -> (res: Result<Request, Error>)
        ensures
            res is Ok <==> phone_accepted(to@) && text_accepted(text@),
            res is Ok ==> self.spec_client().prepares(
                res->Ok_0,
                Method::Post,
                "/messages"@,
                Seq::empty(),
                Some(body@),
            ),
            res is Err ==> res->Err_0@ == validation(
                if !phone_accepted(to@) {
                    invalid_phone_message()
                } else {
                    invalid_text_message(text@)
                },
            ),
    {
        let request = SendMessageRequest { to: to.to_string(), text: text.to_string() };
        self.send(&request, body)
    }

    /// Prepares a listing of messages.
    pub fn list(&self, options: Option<ListMessagesOptions>) -> (request: Request)
        ensures
            self.spec_client().prepares(
                request,
                Method::Get,
                "/messages"@,
                match options {
                    Some(o) => o.spec_query_params(),
                    None => Seq::empty(),
                },
                None,
            ),
    {
        let query = match &options {
            Some(o) => o.to_query_params(),
            None => Vec::new(),
        };
        assert(options is None ==> pairs_text(query@) =~= Seq::empty());
        self.client.get("/messages", query)
    }

    /// Prepares the fetching of one message.
    pub fn get(&self, id: &str) -> (res: Result<Request, Error>)
        ensures
            res is Ok <==> id@.len() > 0,
            res is Ok ==> self.spec_client().prepares(
                res->Ok_0,
                Method::Get,
                "/messages/"@ + percent_encoded(encode_utf8(id@)),
                Seq::empty(),
                None,
            ),
            res is Err ==> res->Err_0@ == validation("Message ID is required"@),
    {
        if id.is_empty() {
            return Err(invalid("Message ID is required"));
        }
        let path = concat("/messages/", url_encode(id).as_str());
        let request = self.client.get(path.as_str(), Vec::new());
        assert(pairs_text(request.query@) =~= Seq::empty());
        Ok(request)
    }

    /// Starts a walk over all messages that `options` select, page by page:
    /// from the offset of the options, or zero, in pages of their limit, or
    /// one hundred.
    pub fn iter(&self, options: Option<ListMessagesOptions>) -> (pager: MessagePager)
        ensures
            pager.offset == match options {
                Some(ListMessagesOptions { offset: Some(offset), .. }) => offset,
                _ => 0,
            },
            pager.batch_size == match options {
                Some(ListMessagesOptions { limit: Some(limit), .. }) => limit,
                _ => 100,
            },
            pager.status == match options {
                Some(o) => o.status,
                None => None,
            },
            pager.to == match options {
                Some(o) => o.to,
                None => None,
            },
    {
        match options {
            Some(o) => MessagePager {
                offset: match o.offset {
                    Some(offset) => offset,
                    None => 0,
                },
                batch_size: match o.limit {
                    Some(limit) => limit,
                    None => 100,
                },
                status: o.status,
                to: o.to,
            },
            None => MessagePager { offset: 0, batch_size: 100, status: None, to: None },
        }
    }

    /// Prepares the scheduling of a message, whose JSON text is `body`.  The
    /// phone number is checked first, then the text, then that a time is
    /// named.
    pub fn schedule(&self, request: &ScheduleMessageRequest, body: String) -> (res: Result<
        Request,
        Error,
    >)
        ensures
            res is Ok <==> phone_accepted(request.to@) && text_accepted(request.text@)
                && request.scheduled_at@.len() > 0,
            res is Ok ==> self.spec_client().prepares(
                res->Ok_0,
                Method::Post,
                "/messages/schedule"@,
                Seq::empty(),
                Some(body@),
            ),
            res is Err ==> res->Err_0@ == validation(
                if !phone_accepted(request.to@) {
                    invalid_phone_message()
                } else if !text_accepted(request.text@) {
                    invalid_text_message(request.text@)
                } else {
                    "scheduled_at is required"@
                },
            ),
    {
        match validate_phone(request.to.as_str()) {
            Err(error) => { return Err(error); },
            Ok(_) => {},
        }
        match validate_text(request.text.as_str()) {
            Err(error) => { return Err(error); },
            Ok(_) => {},
        }
        if request.scheduled_at.as_str().is_empty() {
            return Err(invalid("scheduled_at is required"));
        }
        Ok(self.client.post("/messages/schedule", body))
    }

    /// Prepares a listing of scheduled messages.
    pub fn list_scheduled(
        &self,
        options: Option<ListScheduledMessagesOptions>,
    ) -> (request: Request)
        ensures
            self.spec_client().prepares(
                request,
                Method::Get,
                "/messages/scheduled"@,
                match options {
                    Some(o) => o.spec_query_params(),
                    None => Seq::empty(),
                },
                None,
            ),
    {
        let query = match &options {
            Some(o) => o.to_query_params(),
            None => Vec::new(),
        };
        assert(options is None ==> pairs_text(query@) =~= Seq::empty());
        self.client.get("/messages/scheduled", query)
    }

    /// Prepares the fetching of one scheduled message.
    pub fn get_scheduled(&self, id: &str) -> (res: Result<Request, Error>)
        ensures
            res is Ok <==> id@.len() > 0,
            res is Ok ==> self.spec_client().prepares(
                res->Ok_0,
                Method::Get,
                "/messages/scheduled/"@ + percent_encoded(encode_utf8(id@)),
                Seq::empty(),
                None,
            ),
            res is Err ==> res->Err_0@ == validation("Scheduled message ID is required"@),
    {
        if id.is_empty() {
            return Err(invalid("Scheduled message ID is required"));
        }
        let path = concat("/messages/scheduled/", url_encode(id).as_str());
        let request = self.client.get(path.as_str(), Vec::new());
        assert(pairs_text(request.query@) =~= Seq::empty());
        Ok(request)
    }

    /// Prepares the cancelling of a scheduled message.
    pub fn cancel_scheduled(&self, id: &str) -> (res: Result<Request, Error>)
        ensures
            res is Ok <==> id@.len() > 0,
            res is Ok ==> self.spec_client().prepares(
                res->Ok_0,
                Method::Delete,
                "/messages/scheduled/"@ + percent_encoded(encode_utf8(id@)),
                Seq::empty(),
                None,
            ),
            res is Err ==> res->Err_0@ == validation("Scheduled message ID is required"@),
    {
        if id.is_empty() {
            return Err(invalid("Scheduled message ID is required"));
        }
        let path = concat("/messages/scheduled/", url_encode(id).as_str());
        let request = self.client.delete(path.as_str());
        assert(pairs_text(request.query@) =~= Seq::empty());
        Ok(request)
    }

    /// Prepares the sending of a batch, whose JSON text is `body`, after the
    /// batch has passed [`validate_batch`].
    pub fn send_batch(&self, request: &SendBatchRequest, body: String) -> (res: Result<
        Request,
        Error,
    >)
        ensures
            res is Ok <==> batch_accepted(request.messages@),
            res is Ok ==> self.spec_client().prepares(
                res->Ok_0,
                Method::Post,
                "/messages/batch"@,
                Seq::empty(),
                Some(body@),
            ),
            res is Err ==> batch_fault(request.messages@, res->Err_0@),
    {
        match validate_batch(request) {
            Err(error) => Err(error),
            Ok(_) => Ok(self.client.post("/messages/batch", body)),
        }
    }

    /// Prepares the fetching of the status of a batch.
    pub fn get_batch(&self, batch_id: &str) -> (res: Result<Request, Error>)
        ensures
            res is Ok <==> batch_id@.len() > 0,
            res is Ok ==> self.spec_client().prepares(
                res->Ok_0,
                Method::Get,
                "/messages/batch/"@ + percent_encoded(encode_utf8(batch_id@)),
                Seq::empty(),
                None,
            ),
            res is Err ==> res->Err_0@ == validation("Batch ID is required"@),
    {
        if batch_id.is_empty() {
            return Err(invalid("Batch ID is required"));
        }
        let path = concat("/messages/batch/", url_encode(batch_id).as_str());
        let request = self.client.get(path.as_str(), Vec::new());
        assert(pairs_text(request.query@) =~= Seq::empty());
        Ok(request)
    }

    /// Prepares a listing of batches.
    pub fn list_batches(&self, options: Option<ListBatchesOptions>) -> (request: Request)
        ensures
            self.spec_client().prepares(
                request,
                Method::Get,
                "/messages/batches"@,
                match options {
                    Some(o) => o.spec_query_params(),
                    None => Seq::empty(),
                },
                None,
            ),
    {
        let query = match &options {
            Some(o) => o.to_query_params(),
            None => Vec::new(),
        };
        assert(options is None ==> pairs_text(query@) =~= Seq::empty());
        self.client.get("/messages/batches", query)
    }

    /// Prepares the preview of a batch, whose JSON text is `body`: the same
    /// checks as for sending, and nothing is sent.
    pub fn preview_batch(&self, request: &SendBatchRequest, body: String) -> (res: Result<
        Request,
        Error,
    >)
        ensures
            res is Ok <==> batch_accepted(request.messages@),
            res is Ok ==> self.spec_client().prepares(
                res->Ok_0,
                Method::Post,
                "/messages/batch/preview"@,
                Seq::empty(),
                Some(body@),
            ),
            res is Err ==> batch_fault(request.messages@, res->Err_0@),
    {
        match validate_batch(request) {
            Err(error) => Err(error),
            Ok(_) => Ok(self.client.post("/messages/batch/preview", body)),
        }
    }
}

} // verus!

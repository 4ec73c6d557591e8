//! Verification and decoding of inbound webhook events.
//!
//! A webhook carries a signature header of the form `sha256=<hex>`, where the
//! hex digits are the HMAC-SHA256 of the raw request body under the shared
//! secret.  [`Webhooks::verify_signature`] recomputes that value and compares
//! it with the header in constant time; [`Webhooks::parse_event`] decodes the
//! body only after the signature has been accepted.

use vstd::prelude::*;
use vstd::string::StringSliceAdditionalSpecFns;
use vstd::utf8::encode_utf8;
use crate::text::concat;

verus! {

/// Kind of a webhook event.
#[derive(Debug, Clone, Copy, PartialEq, Eq, Structural)]
pub enum WebhookEventType {
    MessageQueued,
    MessageSent,
    MessageDelivered,
    MessageFailed,
    MessageUndelivered,
}

/// Status of a message as reported by a webhook event.
#[derive(Debug, Clone, Copy, PartialEq, Eq, Structural)]
pub enum WebhookMessageStatus {
    Queued,
    Sent,
    Delivered,
    Failed,
    Undelivered,
}

/// Data carried by a message event.
#[derive(Debug, Clone)]
pub struct WebhookMessageData {
    /// The message ID.
    pub message_id: String,
    /// Current message status.
    pub status: WebhookMessageStatus,
    /// Recipient phone number.
    pub to: String,
    /// Sender ID or phone number.
    pub from: String,
    /// Error message if the status is failed or undelivered.
    pub error: Option<String>,
    /// Error code if available.
    pub error_code: Option<String>,
    /// When the message was delivered (ISO 8601).
    pub delivered_at: Option<String>,
    /// When the message failed (ISO 8601).
    pub failed_at: Option<String>,
    /// Number of SMS segments.
    pub segments: i32,
    /// Credits charged.
    pub credits_used: i32,
}

/// A webhook event.
#[derive(Debug, Clone)]
pub struct WebhookEvent {
    /// Unique event ID.
    pub id: String,
    /// Event type.
    pub event_type: WebhookEventType,
    /// Event data.
    pub data: WebhookMessageData,
    /// When the event was created (ISO 8601).
    pub created_at: String,
    /// API version.
    pub api_version: String,
}

/// Why a webhook payload was rejected.
#[derive(Debug)]
pub enum WebhookError {
    /// The signature does not belong to the payload.
    InvalidSignature,
    /// The payload could not be decoded; carries the decoder's message.
    ParseError(String),
    /// The payload decoded, but its `id` or `created_at` is empty.
    InvalidStructure,
}

impl WebhookError {
    /// The line that describes the error to a reader.
    pub open spec fn spec_display(self) -> Seq<char> {
        match self {
            WebhookError::InvalidSignature => "Invalid webhook signature"@,
            WebhookError::ParseError(detail) => "Failed to parse webhook payload: "@ + detail@,
            WebhookError::InvalidStructure => "Invalid event structure"@,
        }
    }

    /// Describes the error in one line.
    pub fn to_string(&self) -> (line: String)
        ensures
            line@ == self.spec_display(),
    {
        match self {
            WebhookError::InvalidSignature => "Invalid webhook signature".to_string(),
            WebhookError::ParseError(detail) => concat(
                "Failed to parse webhook payload: ",
                detail.as_str(),
            ),
            WebhookError::InvalidStructure => "Invalid event structure".to_string(),
        }
    }
}

/// The version of the API that an event belongs to where it names none.
pub fn default_api_version() -> (version: String)
    ensures
        version@ == "2024-01-01"@,
{
    "2024-01-01".to_string()
}

/// The 32-byte HMAC-SHA256 tag of `message` under `key`.
pub uninterp spec fn hmac_sha256_of(key: Seq<u8>, message: Seq<u8>) -> Seq<u8>;

/// The lower-case hexadecimal digit for a value below sixteen.
pub open spec fn hex_digit(nibble: u8) -> char {
    if nibble < 10 {
        (48 + nibble) as char
    } else {
        (87 + nibble) as char
    }
}

/// Two lower-case hexadecimal digits per byte, high nibble first.
pub open spec fn hex_lower(bytes: Seq<u8>) -> Seq<char>
    decreases bytes.len(),
{
    if bytes.len() == 0 {
        Seq::empty()
    } else {
        hex_lower(bytes.drop_last()).push(hex_digit(bytes.last() / 16)).push(
            hex_digit(bytes.last() % 16),
        )
    }
}

/// The text every signature starts with.
pub open spec fn signature_prefix() -> Seq<char> {
    seq!['s', 'h', 'a', '2', '5', '6', '=']
}

/// The signature that belongs to `payload` under `secret`.
pub open spec fn expected_signature(payload: Seq<char>, secret: Seq<char>) -> Seq<char> {
    signature_prefix() + hex_lower(hmac_sha256_of(encode_utf8(secret), encode_utf8(payload)))
}

/// Whether `signature` authenticates `payload` under `secret`.  Nothing is
/// accepted when one of the three is empty.
pub open spec fn signature_valid(
    payload: Seq<char>,
    signature: Seq<char>,
    secret: Seq<char>,
) -> bool {
    &&& payload.len() > 0
    &&& signature.len() > 0
    &&& secret.len() > 0
    &&& signature == expected_signature(payload, secret)
}

/// What is returned for a payload whose signature was accepted, given what
/// the decoder made of it.
pub open spec fn checked_event(decoded: Result<WebhookEvent, String>) -> Result<
    WebhookEvent,
    WebhookError,
> {
    match decoded {
        Err(detail) => Err(WebhookError::ParseError(detail)),
        Ok(event) => if event.id@.len() == 0 || event.created_at@.len() == 0 {
            Err(WebhookError::InvalidStructure)
        } else {
            Ok(event)
        },
    }
}

/// Computes an HMAC-SHA256 tag.
///
/// Trusted: keys an `hmac::Hmac<sha2::Sha256>` with `Mac::new_from_slice`,
/// feeds it the message with `Mac::update` and reads the tag with
/// `Mac::finalize`.  The contract names the tag and states its length, the
/// output size of SHA-256.  `new_from_slice` accepts a key of any length.
#[verifier::external_body]
fn hmac_sha256(key: &[u8], message: &[u8]) -> (tag: Vec<u8>)
    ensures
        tag@ == hmac_sha256_of(key@, message@),
        tag@.len() == 32,
{
    let mut mac = <hmac::Hmac<sha2::Sha256> as hmac::Mac>::new_from_slice(key)
        .expect("HMAC can take key of any size");
    hmac::Mac::update(&mut mac, message);
    hmac::Mac::finalize(mac).into_bytes().to_vec()
}

/// Writes bytes as lower-case hexadecimal digits.
///
/// Trusted: wraps `hex::encode`, which writes two digits of
/// `0123456789abcdef` for each byte, the high nibble first.
#[verifier::external_body]
fn hex_encode(bytes: &Vec<u8>) -> (digits: String)
    ensures
        digits@ == hex_lower(bytes@),
{
    hex::encode(bytes)
}

/// Compares two strings byte by byte without stopping at the first
/// difference: the time taken depends on the lengths alone.
pub fn constant_time_compare(a: &str, b: &str) -> (same: bool)
    ensures
        same == (a@ == b@),
{
    broadcast use {vstd::utf8::encode_utf8_decode_utf8, vstd::utf8::encode_utf8_valid_utf8};

    let left = a.as_bytes();
    let right = b.as_bytes();
    if left.len() != right.len() {
        return false;
    }
    let mut result: u8 = 0;
    let mut i: usize = 0;
    while i < left.len()
        invariant
            left@.len() == right@.len(),
            i <= left@.len(),
            (result == 0) == (left@.subrange(0, i as int) =~= right@.subrange(0, i as int)),
        decreases left@.len() - i,
    {
        let x: u8 = left[i];
        let y: u8 = right[i];
        let ghost before = result;
        result = result | (x ^ y);
        proof {
            assert(((before | (x ^ y)) == 0) == (before == 0 && x == y)) by (bit_vector);
            let l0 = left@.subrange(0, i as int);
            let r0 = right@.subrange(0, i as int);
            let l1 = left@.subrange(0, i + 1);
            let r1 = right@.subrange(0, i + 1);
            assert(l1 == l0.push(x));
            assert(r1 == r0.push(y));
            if l1 == r1 {
                assert(l1.drop_last() == l0);
                assert(r1.drop_last() == r0);
                assert(l1.last() == x);
            }
        }
        i += 1;
    }
    proof {
        assert(left@.subrange(0, i as int) == left@);
        assert(right@.subrange(0, i as int) == right@);
        assert(vstd::utf8::decode_utf8(encode_utf8(a@)) == a@);
        assert(vstd::utf8::decode_utf8(encode_utf8(b@)) == b@);
    }
    result == 0
}

/// Helpers for webhook handlers.
pub struct Webhooks;

impl Webhooks {
    /// Produces the signature of `payload` under `secret`: the prefix
    /// `sha256=` followed by the hexadecimal HMAC-SHA256 tag.  No input is
    /// refused.
    pub fn generate_signature(payload: &str, secret: &str) -> (signature: String)
        ensures
            signature@ == expected_signature(payload@, secret@),
            signature@.len() == 71,
    {
        let tag = hmac_sha256(secret.as_bytes(), payload.as_bytes());
        let digits = hex_encode(&tag);
        proof {
            reveal_strlit("sha256=");
            assert("sha256="@ =~= signature_prefix());
            lemma_hex_lower_len(tag@);
        }
        concat("sha256=", digits.as_str())
    }

    /// Tells whether `signature` is the signature of `payload` under
    /// `secret`.  An empty payload, signature or secret is never accepted.
    pub fn verify_signature(payload: &str, signature: &str, secret: &str) -> (valid: bool)
        ensures
            valid == signature_valid(payload@, signature@, secret@),
            payload@.len() == 0 || signature@.len() == 0 || secret@.len() == 0 ==> !valid,
    {
        if payload.is_empty() || signature.is_empty() || secret.is_empty() {
            return false;
        }
        let expected = Self::generate_signature(payload, secret);
        constant_time_compare(signature, expected.as_str())
    }

    /// Judges a decoded payload whose signature has been accepted: a decoding
    /// failure is reported with its message, and an event without `id` or
    /// `created_at` is refused.
    pub fn check_event(decoded: Result<WebhookEvent, String>) -> (res: Result<
        WebhookEvent,
        WebhookError,
    >)
        ensures
            res == checked_event(decoded),
    {
        match decoded {
            Err(detail) => Err(WebhookError::ParseError(detail)),
            Ok(event) => {
                if event.id.as_str().is_empty() || event.created_at.as_str().is_empty() {
                    Err(WebhookError::InvalidStructure)
                } else {
                    Ok(event)
                }
            },
        }
    }

    /// Authenticates and decodes a webhook event.
    ///
    /// The signature is checked first.  `decode`, which turns the payload
    /// text into an event, is called only for a payload whose signature was
    /// accepted, so a forged payload learns nothing from decoding errors.
    pub fn parse_event<F: FnOnce(&str) -> Result<WebhookEvent, String>>(
        payload: &str,
        signature: &str,
        secret: &str,
        decode: F,
    ) -> (res: Result<WebhookEvent, WebhookError>)
        requires
            call_requires(decode, (payload,)),
        ensures
            !signature_valid(payload@, signature@, secret@) ==> res == Err::<
                WebhookEvent,
                WebhookError,
            >(WebhookError::InvalidSignature),
            signature_valid(payload@, signature@, secret@) ==> exists|
                decoded: Result<WebhookEvent, String>,
            |
                call_ensures(decode, (payload,), decoded) && res == checked_event(decoded),
    {
        if !Self::verify_signature(payload, signature, secret) {
            return Err(WebhookError::InvalidSignature);
        }
        let decoded = decode(payload);
        Self::check_event(decoded)
    }
}

/// `hex_lower` writes two digits for each byte.
pub proof fn lemma_hex_lower_len(bytes: Seq<u8>)
    ensures
        hex_lower(bytes).len() == 2 * bytes.len(),
    decreases bytes.len(),
{
    if bytes.len() > 0 {
        lemma_hex_lower_len(bytes.drop_last());
    }
}

/// A signature made for a payload and a secret, neither of them empty, is
/// accepted for that payload under that secret.
pub proof fn lemma_generated_signature_verifies(payload: Seq<char>, secret: Seq<char>)
    requires
        payload.len() > 0,
        secret.len() > 0,
    ensures
        signature_valid(payload, expected_signature(payload, secret), secret),
{
    assert(expected_signature(payload, secret).len() >= signature_prefix().len());
}

/// A signature that differs from the right one in a single byte is refused.
pub proof fn lemma_altered_signature_rejected(
    payload: Seq<char>,
    signature: Seq<char>,
    secret: Seq<char>,
    position: int,
    byte: u8,
)
    requires
        0 <= position < encode_utf8(expected_signature(payload, secret)).len(),
        byte != encode_utf8(expected_signature(payload, secret))[position],
        encode_utf8(signature) == encode_utf8(expected_signature(payload, secret)).update(
            position,
            byte,
        ),
    ensures
        !signature_valid(payload, signature, secret),
{
    if signature == expected_signature(payload, secret) {
        assert(encode_utf8(signature)[position] == byte);
    }
}

/// Nothing is accepted when the payload, the signature or the secret is
/// empty, whatever the other two are.
pub proof fn lemma_empty_input_rejected(
    payload: Seq<char>,
    signature: Seq<char>,
    secret: Seq<char>,
)
    requires
        payload.len() == 0 || signature.len() == 0 || secret.len() == 0,
    ensures
        !signature_valid(payload, signature, secret),
{
}

} // verus!

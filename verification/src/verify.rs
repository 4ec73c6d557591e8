//! Phone verification: statuses, channels, and the options for listing
//! verifications.

use vstd::prelude::*;
use std::collections::HashMap;
use crate::client::{Method, Request, Sendly};
use crate::text::{
    clamp_limit, concat, optional_decimal, optional_pair, pairs_text, push_number, push_text,
};

verus! {

/// Status of a verification.
#[derive(Debug, Clone, Copy, PartialEq, Eq, Structural)]
pub enum VerificationStatus {
    /// The code has not been checked yet.
    Pending,
    /// The code was confirmed.
    Verified,
    /// The code ran out of time.
    Expired,
    /// The verification failed.
    Failed,
}

impl VerificationStatus {
    /// The tag of the value on the wire.
    pub open spec fn spec_tag(self) -> Seq<char> {
        match self {
            VerificationStatus::Pending => "pending"@,
            VerificationStatus::Verified => "verified"@,
            VerificationStatus::Expired => "expired"@,
            VerificationStatus::Failed => "failed"@,
        }
    }

    /// The tag of the value on the wire.
    pub fn as_str(&self) -> (tag: &'static str)
        ensures
            tag@ == self.spec_tag(),
    {
        match self {
            VerificationStatus::Pending => "pending",
            VerificationStatus::Verified => "verified",
            VerificationStatus::Expired => "expired",
            VerificationStatus::Failed => "failed",
        }
    }

    /// The tag of the value on the wire, as an owned text.
    pub fn to_string(&self) -> (tag: String)
        ensures
            tag@ == self.spec_tag(),
    {
        self.as_str().to_string()
    }
}

/// Delivery status of a verification code.
#[derive(Debug, Clone, Copy, PartialEq, Eq, Structural)]
pub enum DeliveryStatus {
    Pending,
    Sent,
    Delivered,
    Failed,
}

/// Channel over which a verification code is sent.
#[derive(Debug, Clone, Copy, PartialEq, Eq, Structural)]
pub enum Channel {
    Sms,
    Whatsapp,
    Email,
}

impl Default for Channel {
    fn default() -> (channel: Self)
        ensures
            channel == Channel::Sms,
    {
        Channel::Sms
    }
}

/// The number of attempts that a verification allows where the API names
/// none.
pub fn default_max_attempts() -> (attempts: i32)
    ensures
        attempts == 3,
{
    3
}

/// Request to check a verification code.
#[derive(Debug, Clone)]
pub struct CheckVerificationRequest {
    /// The code that the user entered.
    pub code: String,
}

/// Options for listing verifications.
#[derive(Debug, Clone)]
pub struct ListVerificationsOptions {
    /// Maximum verifications to return (max: 100).
    pub limit: Option<u32>,
    /// Filter by status.
    pub status: Option<VerificationStatus>,
    /// Filter by phone number.
    pub phone: Option<String>,
}

impl Default for ListVerificationsOptions {
    fn default() -> (options: Self)
        ensures
            options.limit is None,
            options.status is None,
            options.phone is None,
    {
        ListVerificationsOptions { limit: None, status: None, phone: None }
    }
}

impl ListVerificationsOptions {
    /// Creates options that ask for nothing in particular.
    pub fn new() -> (options: Self)
        ensures
            options.limit is None,
            options.status is None,
            options.phone is None,
    {
        ListVerificationsOptions { limit: None, status: None, phone: None }
    }

    /// Sets the page size; more than 100 becomes 100.
    pub fn limit(self, limit: u32) -> (options: Self)
        ensures
            options.limit == Some(clamp_limit(limit)),
            options.status == self.status,
            options.phone == self.phone,
    {
        let capped: u32 = if limit < 100 {
            limit
        } else {
            100
        };
        ListVerificationsOptions {
            limit: Some(capped),
            status: self.status,
            phone: self.phone,
        }
    }

    /// Sets the status filter.
    pub fn status(self, status: VerificationStatus) -> (options: Self)
        ensures
            options.limit == self.limit,
            options.status == Some(status),
            options.phone == self.phone,
    {
        ListVerificationsOptions {
            limit: self.limit,
            status: Some(status),
            phone: self.phone,
        }
    }

    /// Sets the phone number filter.
    pub fn phone(self, phone: &str) -> (options: Self)
        ensures
            options.limit == self.limit,
            options.status == self.status,
            options.phone is Some,
            options.phone->0@ == phone@,
    {
        ListVerificationsOptions {
            limit: self.limit,
            status: self.status,
            phone: Some(phone.to_string()),
        }
    }

    /// The query parameters that the options stand for: `limit`, `status` and `phone`, in this
    /// order, each only where it is set.
    pub open spec fn spec_query_params(&self) -> Seq<(Seq<char>, Seq<char>)> {
        optional_pair("limit"@, optional_decimal(self.limit)) + optional_pair(
            "status"@,
            match self.status {
                Some(s) => Some(s.spec_tag()),
                None => None,
            },
        ) + optional_pair(
            "phone"@,
            match self.phone {
                Some(t) => Some(t@),
                None => None,
            },
        )
    }

    /// Writes the options as query parameters.
    pub fn to_query_params(&self) -> (params: Vec<(String, String)>)
        ensures
            pairs_text(params@) == self.spec_query_params(),
    {
        let mut params: Vec<(String, String)> = Vec::new();
        assert(pairs_text(params@) =~= Seq::empty());
        push_number(&mut params, "limit", self.limit);
        let status: Option<&str> = match &self.status {
            Some(s) => Some(s.as_str()),
            None => None,
        };
        push_text(&mut params, "status", status);
        let phone: Option<&str> = match &self.phone {
            Some(t) => Some(t.as_str()),
            None => None,
        };
        push_text(&mut params, "phone", phone);
        assert(pairs_text(params@) =~= self.spec_query_params());
        params
    }
}

/// Where a page of verifications stands.
#[derive(Debug, Clone)]
pub struct Pagination {
    /// Page size that was asked for.
    pub limit: i32,
    /// Whether more verifications follow.
    pub has_more: bool,
}

/// Status of a hosted verification session.
#[derive(Debug, Clone, Copy, PartialEq, Eq, Structural)]
pub enum SessionStatus {
    Pending,
    PhoneSubmitted,
    CodeSent,
    Verified,
    Expired,
    Cancelled,
}

/// Request to validate the token of a session.
#[derive(Debug, Clone)]
pub struct ValidateSessionRequest {
    /// The token handed to the success URL.
    pub token: String,
}

/// Hosted verification sessions.
#[derive(Debug, Clone)]
pub struct SessionsResource<'a> {
    client: &'a Sendly,
}

impl<'a> SessionsResource<'a> {
    /// The client that the resource sends through.
    pub closed spec fn spec_client(&self) -> &Sendly {
        self.client
    }

    /// Creates the resource of a client.
    pub fn new(client: &'a Sendly) -> (resource: Self)
        ensures
            resource.spec_client() == client,
    {
        SessionsResource { client }
    }

    /// Prepares the creation of a session, whose JSON text is `body`.
    pub fn create(&self, body: String) -> (request: Request)
        ensures
            self.spec_client().prepares(
                request,
                Method::Post,
                "/verify/sessions"@,
                Seq::empty(),
                Some(body@),
            ),
    {
        self.client.post("/verify/sessions", body)
    }

    /// Prepares the validation of a session token; `body` is the JSON text of a
    /// [`ValidateSessionRequest`].
    pub fn validate(&self, body: String) -> (request: Request)
        ensures
            self.spec_client().prepares(
                request,
                Method::Post,
                "/verify/sessions/validate"@,
                Seq::empty(),
                Some(body@),
            ),
    {
        self.client.post("/verify/sessions/validate", body)
    }
}

/// Verify resource: one-time codes sent to a phone.
#[derive(Debug, Clone)]
pub struct VerifyResource<'a> {
    client: &'a Sendly,
}

impl<'a> VerifyResource<'a> {
    /// The client that the resource sends through.
    pub closed spec fn spec_client(&self) -> &Sendly {
        self.client
    }

    /// Creates the resource of a client.
    pub fn new(client: &'a Sendly) -> (resource: Self)
        ensures
            resource.spec_client() == client,
    {
        VerifyResource { client }
    }

    /// Prepares the sending of a verification code; `body` is the JSON text of
    /// the request.
    pub fn send(&self, body: String) -> (request: Request)
        ensures
            self.spec_client().prepares(
                request,
                Method::Post,
                "/verify"@,
                Seq::empty(),
                Some(body@),
            ),
    {
        self.client.post("/verify", body)
    }

    /// Prepares the sending of a new code for a verification.
    pub fn resend(&self, id: &str) -> (request: Request)
        ensures
            self.spec_client().prepares(
                request,
                Method::Post,
                "/verify/"@ + id@ + "/resend"@,
                Seq::empty(),
                Some("null"@),
            ),
    {
        let path = concat("/verify/", id);
        let path = concat(path.as_str(), "/resend");
        self.client.post(path.as_str(), "null".to_string())
    }

    /// Prepares the checking of a code; `body` is the JSON text of a
    /// [`CheckVerificationRequest`].
    pub fn check(&self, id: &str, body: String) -> (request: Request)
        ensures
            self.spec_client().prepares(
                request,
                Method::Post,
                "/verify/"@ + id@ + "/check"@,
                Seq::empty(),
                Some(body@),
            ),
    {
        let path = concat("/verify/", id);
        let path = concat(path.as_str(), "/check");
        self.client.post(path.as_str(), body)
    }

    /// Prepares the fetching of one verification.
    pub fn get(&self, id: &str) -> (request: Request)
        ensures
            self.spec_client().prepares(
                request,
                Method::Get,
                "/verify/"@ + id@,
                Seq::empty(),
                None,
            ),
    {
        let path = concat("/verify/", id);
        let request = self.client.get(path.as_str(), Vec::new());
        assert(pairs_text(request.query@) =~= Seq::empty());
        request
    }

    /// Prepares a listing of verifications.
    pub fn list(&self, options: ListVerificationsOptions) -> (request: Request)
        ensures
            self.spec_client().prepares(
                request,
                Method::Get,
                "/verify"@,
                options.spec_query_params(),
                None,
            ),
    {
        let query = options.to_query_params();
        self.client.get("/verify", query)
    }
}

impl<'a> VerifyResource<'a> {
    /// Returns the sessions resource of the same client.
    pub fn sessions(&self) -> (resource: SessionsResource<'a>)
        ensures
            resource.spec_client() == self.spec_client(),
    {
        SessionsResource::new(self.client)
    }
}

impl Sendly {
    /// Returns the verify resource.
    pub fn verify(&self) -> (resource: VerifyResource<'_>)
        ensures
            resource.spec_client() == self,
    {
        VerifyResource::new(self)
    }
}

/// A verification of a phone number.
#[derive(Debug, Clone)]
pub struct Verification {
    /// Unique identifier of the verification.
    pub id: String,
    /// Where the verification stands.
    pub status: VerificationStatus,
    /// Phone number being verified.
    pub phone: String,
    /// Whether the code has reached the phone.
    pub delivery_status: DeliveryStatus,
    /// Attempts made so far.
    pub attempts: i32,
    /// Attempts allowed.
    pub max_attempts: i32,
    /// Channel over which the code was sent.
    pub channel: Channel,
    /// When the code runs out of time.
    pub expires_at: String,
    /// When the code was confirmed.
    pub verified_at: Option<String>,
    /// Creation timestamp.
    pub created_at: String,
    /// Whether the verification ran in sandbox mode.
    pub sandbox: bool,
    /// Name shown in the message.
    pub app_name: Option<String>,
    /// Template of the message.
    pub template_id: Option<String>,
    /// Profile that the verification belongs to.
    pub profile_id: Option<String>,
    /// Free-form data kept with the verification.
    pub metadata: Option<HashMap<String, serde_json::Value>>,
}

impl Verification {
    /// Returns true if the code has not been checked yet.
    pub fn is_pending(&self) -> (yes: bool)
        ensures
            yes == (self.status == VerificationStatus::Pending),
    {
        self.status == VerificationStatus::Pending
    }

    /// Returns true if the code was confirmed.
    pub fn is_verified(&self) -> (yes: bool)
        ensures
            yes == (self.status == VerificationStatus::Verified),
    {
        self.status == VerificationStatus::Verified
    }

    /// Returns true if the code ran out of time.
    pub fn is_expired(&self) -> (yes: bool)
        ensures
            yes == (self.status == VerificationStatus::Expired),
    {
        self.status == VerificationStatus::Expired
    }
}

/// Request to send a verification code.
#[derive(Debug, Clone)]
pub struct SendVerificationRequest {
    /// Phone number to verify.
    pub phone: String,
    /// Channel over which the code is sent.
    pub channel: Option<Channel>,
    /// Number of digits of the code.
    pub code_length: Option<i32>,
    /// Seconds for which the code is good.
    pub expires_in: Option<i32>,
    /// Attempts allowed.
    pub max_attempts: Option<i32>,
    /// Template of the message.
    pub template_id: Option<String>,
    /// Profile that the verification belongs to.
    pub profile_id: Option<String>,
    /// Name shown in the message.
    pub app_name: Option<String>,
    /// Language of the message.
    pub locale: Option<String>,
    /// Free-form data kept with the verification.
    pub metadata: Option<HashMap<String, serde_json::Value>>,
}

impl SendVerificationRequest {
    /// Creates a request with the required fields; the optional ones are
    /// left out.
    pub fn new(phone: &str) -> (request: Self)
        ensures
            request.phone@ == phone@,
            request.channel is None,
            request.code_length is None,
            request.expires_in is None,
            request.max_attempts is None,
            request.template_id is None,
            request.profile_id is None,
            request.app_name is None,
            request.locale is None,
            request.metadata is None,
    {
        SendVerificationRequest {
            phone: phone.to_string(),
            channel: None,
            code_length: None,
            expires_in: None,
            max_attempts: None,
            template_id: None,
            profile_id: None,
            app_name: None,
            locale: None,
            metadata: None,
        }
    }

    /// Sets the channel.
    pub fn channel(self, channel: Channel) -> (request: Self)
        ensures
            request.phone == self.phone,
            request.channel == Some(channel),
            request.code_length == self.code_length,
            request.expires_in == self.expires_in,
            request.max_attempts == self.max_attempts,
            request.template_id == self.template_id,
            request.profile_id == self.profile_id,
            request.app_name == self.app_name,
            request.locale == self.locale,
            request.metadata == self.metadata,
    {
        SendVerificationRequest {
            phone: self.phone,
            channel: Some(channel),
            code_length: self.code_length,
            expires_in: self.expires_in,
            max_attempts: self.max_attempts,
            template_id: self.template_id,
            profile_id: self.profile_id,
            app_name: self.app_name,
            locale: self.locale,
            metadata: self.metadata,
        }
    }

    /// Sets the number of digits of the code.
    pub fn code_length(self, code_length: i32) -> (request: Self)
        ensures
            request.phone == self.phone,
            request.channel == self.channel,
            request.code_length == Some(code_length),
            request.expires_in == self.expires_in,
            request.max_attempts == self.max_attempts,
            request.template_id == self.template_id,
            request.profile_id == self.profile_id,
            request.app_name == self.app_name,
            request.locale == self.locale,
            request.metadata == self.metadata,
    {
        SendVerificationRequest {
            phone: self.phone,
            channel: self.channel,
            code_length: Some(code_length),
            expires_in: self.expires_in,
            max_attempts: self.max_attempts,
            template_id: self.template_id,
            profile_id: self.profile_id,
            app_name: self.app_name,
            locale: self.locale,
            metadata: self.metadata,
        }
    }

    /// Sets the seconds for which the code is good.
    pub fn expires_in(self, expires_in: i32) -> (request: Self)
        ensures
            request.phone == self.phone,
            request.channel == self.channel,
            request.code_length == self.code_length,
            request.expires_in == Some(expires_in),
            request.max_attempts == self.max_attempts,
            request.template_id == self.template_id,
            request.profile_id == self.profile_id,
            request.app_name == self.app_name,
            request.locale == self.locale,
            request.metadata == self.metadata,
    {
        SendVerificationRequest {
            phone: self.phone,
            channel: self.channel,
            code_length: self.code_length,
            expires_in: Some(expires_in),
            max_attempts: self.max_attempts,
            template_id: self.template_id,
            profile_id: self.profile_id,
            app_name: self.app_name,
            locale: self.locale,
            metadata: self.metadata,
        }
    }

    /// Sets the template of the message.
    pub fn template_id(self, template_id: &str) -> (request: Self)
        ensures
            request.phone == self.phone,
            request.channel == self.channel,
            request.code_length == self.code_length,
            request.expires_in == self.expires_in,
            request.max_attempts == self.max_attempts,
            request.template_id is Some,
            request.template_id->0@ == template_id@,
            request.profile_id == self.profile_id,
            request.app_name == self.app_name,
            request.locale == self.locale,
            request.metadata == self.metadata,
    {
        SendVerificationRequest {
            phone: self.phone,
            channel: self.channel,
            code_length: self.code_length,
            expires_in: self.expires_in,
            max_attempts: self.max_attempts,
            template_id: Some(template_id.to_string()),
            profile_id: self.profile_id,
            app_name: self.app_name,
            locale: self.locale,
            metadata: self.metadata,
        }
    }

    /// Sets the name shown in the message.
    pub fn app_name(self, app_name: &str) -> (request: Self)
        ensures
            request.phone == self.phone,
            request.channel == self.channel,
            request.code_length == self.code_length,
            request.expires_in == self.expires_in,
            request.max_attempts == self.max_attempts,
            request.template_id == self.template_id,
            request.profile_id == self.profile_id,
            request.app_name is Some,
            request.app_name->0@ == app_name@,
            request.locale == self.locale,
            request.metadata == self.metadata,
    {
        SendVerificationRequest {
            phone: self.phone,
            channel: self.channel,
            code_length: self.code_length,
            expires_in: self.expires_in,
            max_attempts: self.max_attempts,
            template_id: self.template_id,
            profile_id: self.profile_id,
            app_name: Some(app_name.to_string()),
            locale: self.locale,
            metadata: self.metadata,
        }
    }
}

/// Response to the sending of a verification code.
#[derive(Debug, Clone)]
pub struct SendVerificationResponse {
    /// The verification that was started.
    pub verification: Verification,
    /// The code itself, in sandbox mode only.
    pub code: Option<String>,
}

/// Response to the checking of a code.
#[derive(Debug, Clone)]
pub struct CheckVerificationResponse {
    /// Whether the code was right.
    pub valid: bool,
    /// Where the verification stands now.
    pub status: VerificationStatus,
    /// The verification, where the API sends it.
    pub verification: Option<Verification>,
}

/// A page of verifications.
#[derive(Debug, Clone)]
pub struct VerificationList {
    /// Verifications in this page.
    pub verifications: Vec<Verification>,
    /// Where the page stands.
    pub pagination: Option<Pagination>,
}

/// Request to create a hosted verification session.
#[derive(Debug, Clone)]
pub struct CreateSessionRequest {
    /// Where the user is sent after a successful verification.
    pub success_url: String,
    /// Where the user is sent after giving up.
    pub cancel_url: Option<String>,
    /// Name shown on the hosted page.
    pub brand_name: Option<String>,
    /// Colour of the hosted page.
    pub brand_color: Option<String>,
    /// Free-form data kept with the session.
    pub metadata: Option<HashMap<String, serde_json::Value>>,
}

impl CreateSessionRequest {
    /// Creates a request with the required fields; the optional ones are
    /// left out.
    pub fn new(success_url: &str) -> (request: Self)
        ensures
            request.success_url@ == success_url@,
            request.cancel_url is None,
            request.brand_name is None,
            request.brand_color is None,
            request.metadata is None,
    {
        CreateSessionRequest {
            success_url: success_url.to_string(),
            cancel_url: None,
            brand_name: None,
            brand_color: None,
            metadata: None,
        }
    }

    /// Sets where the user is sent after giving up.
    pub fn cancel_url(self, cancel_url: &str) -> (request: Self)
        ensures
            request.success_url == self.success_url,
            request.cancel_url is Some,
            request.cancel_url->0@ == cancel_url@,
            request.brand_name == self.brand_name,
            request.brand_color == self.brand_color,
            request.metadata == self.metadata,
    {
        CreateSessionRequest {
            success_url: self.success_url,
            cancel_url: Some(cancel_url.to_string()),
            brand_name: self.brand_name,
            brand_color: self.brand_color,
            metadata: self.metadata,
        }
    }

    /// Sets the name shown on the hosted page.
    pub fn brand_name(self, brand_name: &str) -> (request: Self)
        ensures
            request.success_url == self.success_url,
            request.cancel_url == self.cancel_url,
            request.brand_name is Some,
            request.brand_name->0@ == brand_name@,
            request.brand_color == self.brand_color,
            request.metadata == self.metadata,
    {
        CreateSessionRequest {
            success_url: self.success_url,
            cancel_url: self.cancel_url,
            brand_name: Some(brand_name.to_string()),
            brand_color: self.brand_color,
            metadata: self.metadata,
        }
    }

    /// Sets the colour of the hosted page.
    pub fn brand_color(self, brand_color: &str) -> (request: Self)
        ensures
            request.success_url == self.success_url,
            request.cancel_url == self.cancel_url,
            request.brand_name == self.brand_name,
            request.brand_color is Some,
            request.brand_color->0@ == brand_color@,
            request.metadata == self.metadata,
    {
        CreateSessionRequest {
            success_url: self.success_url,
            cancel_url: self.cancel_url,
            brand_name: self.brand_name,
            brand_color: Some(brand_color.to_string()),
            metadata: self.metadata,
        }
    }

    /// Sets the free-form data.
    pub fn metadata(self, metadata: HashMap<String, serde_json::Value>) -> (request: Self)
        ensures
            request.success_url == self.success_url,
            request.cancel_url == self.cancel_url,
            request.brand_name == self.brand_name,
            request.brand_color == self.brand_color,
            request.metadata == Some(metadata),
    {
        CreateSessionRequest {
            success_url: self.success_url,
            cancel_url: self.cancel_url,
            brand_name: self.brand_name,
            brand_color: self.brand_color,
            metadata: Some(metadata),
        }
    }
}

/// A hosted verification session.
#[derive(Debug, Clone)]
pub struct VerifySession {
    /// Unique identifier of the session.
    pub id: String,
    /// Address of the hosted page.
    pub url: String,
    /// Where the session stands.
    pub status: String,
    /// Where the user is sent after a successful verification.
    pub success_url: String,
    /// Where the user is sent after giving up.
    pub cancel_url: Option<String>,
    /// Name shown on the hosted page.
    pub brand_name: Option<String>,
    /// Colour of the hosted page.
    pub brand_color: Option<String>,
    /// Phone number that was entered.
    pub phone: Option<String>,
    /// Verification that the session started.
    pub verification_id: Option<String>,
    /// Token handed to the success URL.
    pub token: Option<String>,
    /// Free-form data kept with the session.
    pub metadata: Option<HashMap<String, serde_json::Value>>,
    /// When the session runs out of time.
    pub expires_at: String,
    /// Creation timestamp.
    pub created_at: String,
}

/// Response to the validation of a session token.
#[derive(Debug, Clone)]
pub struct ValidateSessionResponse {
    /// Whether the token is good.
    pub valid: bool,
    /// Session that the token belongs to.
    pub session_id: Option<String>,
    /// Phone number that was verified.
    pub phone: Option<String>,
    /// When the phone number was verified.
    pub verified_at: Option<String>,
    /// Free-form data kept with the session.
    pub metadata: Option<HashMap<String, serde_json::Value>>,
}

} // verus!

//! Campaigns: the requests that create, change and schedule them, and the
//! options for listing them.

use vstd::prelude::*;
use crate::client::{Method, Request, Sendly};
use crate::text::{
    clamp_limit, concat, optional_decimal, optional_pair, pairs_text, push_number, push_text,
};

verus! {

/// Status of a campaign.
#[derive(Debug, Clone, Copy, PartialEq, Eq, Structural)]
pub enum CampaignStatus {
    /// Not yet sent or scheduled.
    Draft,
    /// Scheduled for a later time.
    Scheduled,
    /// Being sent.
    Sending,
    /// Sent to all recipients.
    Sent,
    /// Paused.
    Paused,
    /// Cancelled.
    Cancelled,
    /// Failed.
    Failed,
}

impl CampaignStatus {
    /// The tag of the value on the wire.
    pub open spec fn spec_tag(self) -> Seq<char> {
        match self {
            CampaignStatus::Draft => "draft"@,
            CampaignStatus::Scheduled => "scheduled"@,
            CampaignStatus::Sending => "sending"@,
            CampaignStatus::Sent => "sent"@,
            CampaignStatus::Paused => "paused"@,
            CampaignStatus::Cancelled => "cancelled"@,
            CampaignStatus::Failed => "failed"@,
        }
    }

    /// The tag of the value on the wire.
    pub fn as_str(&self) -> (tag: &'static str)
        ensures
            tag@ == self.spec_tag(),
    {
        match self {
            CampaignStatus::Draft => "draft",
            CampaignStatus::Scheduled => "scheduled",
            CampaignStatus::Sending => "sending",
            CampaignStatus::Sent => "sent",
            CampaignStatus::Paused => "paused",
            CampaignStatus::Cancelled => "cancelled",
            CampaignStatus::Failed => "failed",
        }
    }
}

/// Request to create a campaign.
#[derive(Debug, Clone)]
pub struct CreateCampaignRequest {
    /// Name of the campaign.
    pub name: String,
    /// Message content.
    pub text: String,
    /// Contact lists that receive the campaign.
    pub contact_list_ids: Vec<String>,
    /// Template to send, where one is used.
    pub template_id: Option<String>,
}

impl CreateCampaignRequest {
    /// Creates a request with the required fields; the optional ones are
    /// left out.
    pub fn new(name: &str, text: &str, contact_list_ids: Vec<String>) -> (request: Self)
        ensures
            request.name@ == name@,
            request.text@ == text@,
            request.contact_list_ids == contact_list_ids,
            request.template_id is None,
    {
        CreateCampaignRequest {
            name: name.to_string(),
            text: text.to_string(),
            contact_list_ids,
            template_id: None,
        }
    }

    /// Sets the template.
    pub fn template_id(self, template_id: &str) -> (request: Self)
        ensures
            request.name == self.name,
            request.text == self.text,
            request.contact_list_ids == self.contact_list_ids,
            request.template_id is Some,
            request.template_id->0@ == template_id@,
    {
        CreateCampaignRequest {
            name: self.name,
            text: self.text,
            contact_list_ids: self.contact_list_ids,
            template_id: Some(template_id.to_string()),
        }
    }
}

/// Request to update a campaign; only the fields that are set change.
#[derive(Debug, Clone)]
pub struct UpdateCampaignRequest {
    /// New name.
    pub name: Option<String>,
    /// New message content.
    pub text: Option<String>,
    /// New contact lists.
    pub contact_list_ids: Option<Vec<String>>,
    /// New template.
    pub template_id: Option<String>,
}

impl UpdateCampaignRequest {
    /// Creates a request that changes nothing.
    pub fn new() -> (request: Self)
        ensures
            request.name is None,
            request.text is None,
            request.contact_list_ids is None,
            request.template_id is None,
    {
        UpdateCampaignRequest {
            name: None,
            text: None,
            contact_list_ids: None,
            template_id: None,
        }
    }

    /// Sets the new name.
    pub fn name(self, name: &str) -> (request: Self)
        ensures
            request.name is Some,
            request.name->0@ == name@,
            request.text == self.text,
            request.contact_list_ids == self.contact_list_ids,
            request.template_id == self.template_id,
    {
        UpdateCampaignRequest {
            name: Some(name.to_string()),
            text: self.text,
            contact_list_ids: self.contact_list_ids,
            template_id: self.template_id,
        }
    }

    /// Sets the new message content.
    pub fn text(self, text: &str) -> (request: Self)
        ensures
            request.name == self.name,
            request.text is Some,
            request.text->0@ == text@,
            request.contact_list_ids == self.contact_list_ids,
            request.template_id == self.template_id,
    {
        UpdateCampaignRequest {
            name: self.name,
            text: Some(text.to_string()),
            contact_list_ids: self.contact_list_ids,
            template_id: self.template_id,
        }
    }

    /// Sets the new contact lists.
    pub fn contact_list_ids(self, contact_list_ids: Vec<String>) -> (request: Self)
        ensures
            request.name == self.name,
            request.text == self.text,
            request.contact_list_ids == Some(contact_list_ids),
            request.template_id == self.template_id,
    {
        UpdateCampaignRequest {
            name: self.name,
            text: self.text,
            contact_list_ids: Some(contact_list_ids),
            template_id: self.template_id,
        }
    }

    /// Sets the new template.
    pub fn template_id(self, template_id: &str) -> (request: Self)
        ensures
            request.name == self.name,
            request.text == self.text,
            request.contact_list_ids == self.contact_list_ids,
            request.template_id is Some,
            request.template_id->0@ == template_id@,
    {
        UpdateCampaignRequest {
            name: self.name,
            text: self.text,
            contact_list_ids: self.contact_list_ids,
            template_id: Some(template_id.to_string()),
        }
    }
}

/// Options for listing campaigns.
#[derive(Debug, Clone)]
pub struct ListCampaignsOptions {
    /// Maximum campaigns to return (max: 100).
    pub limit: Option<u32>,
    /// Number of campaigns to skip.
    pub offset: Option<u32>,
    /// Filter by status.
    pub status: Option<CampaignStatus>,
}

impl Default for ListCampaignsOptions {
    fn default() -> (options: Self)
        ensures
            options.limit is None,
            options.offset is None,
            options.status is None,
    {
        ListCampaignsOptions { limit: None, offset: None, status: None }
    }
}

impl ListCampaignsOptions {
    /// Creates options that ask for nothing in particular.
    pub fn new() -> (options: Self)
        ensures
            options.limit is None,
            options.offset is None,
            options.status is None,
    {
        ListCampaignsOptions { limit: None, offset: None, status: None }
    }

    /// Sets the page size; more than 100 becomes 100.
    pub fn limit(self, limit: u32) -> (options: Self)
        ensures
            options.limit == Some(clamp_limit(limit)),
            options.offset == self.offset,
            options.status == self.status,
    {
        let capped: u32 = if limit < 100 {
            limit
        } else {
            100
        };
        ListCampaignsOptions {
            limit: Some(capped),
            offset: self.offset,
            status: self.status,
        }
    }

    /// Sets the number of campaigns to skip.
    pub fn offset(self, offset: u32) -> (options: Self)
        ensures
            options.limit == self.limit,
            options.offset == Some(offset),
            options.status == self.status,
    {
        ListCampaignsOptions {
            limit: self.limit,
            offset: Some(offset),
            status: self.status,
        }
    }

    /// Sets the status filter.
    pub fn status(self, status: CampaignStatus) -> (options: Self)
        ensures
            options.limit == self.limit,
            options.offset == self.offset,
            options.status == Some(status),
    {
        ListCampaignsOptions {
            limit: self.limit,
            offset: self.offset,
            status: Some(status),
        }
    }

    /// The query parameters that the options stand for: `limit`, `offset` and `status`, in this
    /// order, each only where it is set.
    pub open spec fn spec_query_params(&self) -> Seq<(Seq<char>, Seq<char>)> {
        optional_pair("limit"@, optional_decimal(self.limit)) + optional_pair(
            "offset"@,
            optional_decimal(self.offset),
        ) + optional_pair(
            "status"@,
            match self.status {
                Some(s) => Some(s.spec_tag()),
                None => None,
            },
        )
    }

    /// Writes the options as query parameters.
    pub fn to_query_params(&self) -> (params: Vec<(String, String)>)
        ensures
            pairs_text(params@) == self.spec_query_params(),
    {
        let mut params: Vec<(String, String)> = Vec::new();
        assert(pairs_text(params@) =~= Seq::empty());
        push_number(&mut params, "limit", self.limit);
        push_number(&mut params, "offset", self.offset);
        let status: Option<&str> = match &self.status {
            Some(s) => Some(s.as_str()),
            None => None,
        };
        push_text(&mut params, "status", status);
        assert(pairs_text(params@) =~= self.spec_query_params());
        params
    }
}

/// Request to schedule a campaign.
#[derive(Debug, Clone)]
pub struct ScheduleCampaignRequest {
    /// When to send the campaign (ISO 8601).
    pub scheduled_at: String,
    /// Time zone of the schedule.
    pub timezone: Option<String>,
}

impl ScheduleCampaignRequest {
    /// Creates a request with the required fields; the optional ones are
    /// left out.
    pub fn new(scheduled_at: &str) -> (request: Self)
        ensures
            request.scheduled_at@ == scheduled_at@,
            request.timezone is None,
    {
        ScheduleCampaignRequest {
            scheduled_at: scheduled_at.to_string(),
            timezone: None,
        }
    }

    /// Sets the time zone.
    pub fn timezone(self, timezone: &str) -> (request: Self)
        ensures
            request.scheduled_at == self.scheduled_at,
            request.timezone is Some,
            request.timezone->0@ == timezone@,
    {
        ScheduleCampaignRequest {
            scheduled_at: self.scheduled_at,
            timezone: Some(timezone.to_string()),
        }
    }
}

/// Campaigns resource: the requests that manage bulk sends.
#[derive(Debug, Clone)]
pub struct CampaignsResource<'a> {
    client: &'a Sendly,
}

impl<'a> CampaignsResource<'a> {
    /// The client that the resource sends through.
    pub closed spec fn spec_client(&self) -> &Sendly {
        self.client
    }

    /// Creates the resource of a client.
    pub fn new(client: &'a Sendly) -> (resource: Self)
        ensures
            resource.spec_client() == client,
    {
        CampaignsResource { client }
    }

    /// Prepares a listing of campaigns.
    pub fn list(&self, options: ListCampaignsOptions) -> (request: Request)
        ensures
            self.spec_client().prepares(
                request,
                Method::Get,
                "/campaigns"@,
                options.spec_query_params(),
                None,
            ),
    {
        let query = options.to_query_params();
        self.client.get("/campaigns", query)
    }

    /// Prepares the fetching of one campaign.
    pub fn get(&self, id: &str) -> (request: Request)
        ensures
            self.spec_client().prepares(
                request,
                Method::Get,
                "/campaigns/"@ + id@,
                Seq::empty(),
                None,
            ),
    {
        let path = concat("/campaigns/", id);
        let request = self.client.get(path.as_str(), Vec::new());
        assert(pairs_text(request.query@) =~= Seq::empty());
        request
    }

    /// Prepares the creation of a campaign, whose JSON text is `body`.
    pub fn create(&self, body: String) -> (request: Request)
        ensures
            self.spec_client().prepares(
                request,
                Method::Post,
                "/campaigns"@,
                Seq::empty(),
                Some(body@),
            ),
    {
        self.client.post("/campaigns", body)
    }

    /// Prepares a change of a campaign; `body` is the JSON text of the change.
    pub fn update(&self, id: &str, body: String) -> (request: Request)
        ensures
            self.spec_client().prepares(
                request,
                Method::Patch,
                "/campaigns/"@ + id@,
                Seq::empty(),
                Some(body@),
            ),
    {
        let path = concat("/campaigns/", id);
        self.client.patch(path.as_str(), body)
    }

    /// Prepares the deletion of a campaign.
    pub fn delete(&self, id: &str) -> (request: Request)
        ensures
            self.spec_client().prepares(
                request,
                Method::Delete,
                "/campaigns/"@ + id@,
                Seq::empty(),
                None,
            ),
    {
        let path = concat("/campaigns/", id);
        self.client.delete(path.as_str())
    }

    /// Prepares a preview of a campaign: recipients and cost, nothing is sent.
    pub fn preview(&self, id: &str) -> (request: Request)
        ensures
            self.spec_client().prepares(
                request,
                Method::Get,
                "/campaigns/"@ + id@ + "/preview"@,
                Seq::empty(),
                None,
            ),
    {
        let path = concat("/campaigns/", id);
        let path = concat(path.as_str(), "/preview");
        let request = self.client.get(path.as_str(), Vec::new());
        assert(pairs_text(request.query@) =~= Seq::empty());
        request
    }

    /// Prepares the sending of a campaign.
    pub fn send(&self, id: &str) -> (request: Request)
        ensures
            self.spec_client().prepares(
                request,
                Method::Post,
                "/campaigns/"@ + id@ + "/send"@,
                Seq::empty(),
                Some("null"@),
            ),
    {
        let path = concat("/campaigns/", id);
        let path = concat(path.as_str(), "/send");
        self.client.post(path.as_str(), "null".to_string())
    }

    /// Prepares the scheduling of a campaign; `body` is the JSON text of the schedule.
    pub fn schedule(&self, id: &str, body: String) -> (request: Request)
        ensures
            self.spec_client().prepares(
                request,
                Method::Post,
                "/campaigns/"@ + id@ + "/schedule"@,
                Seq::empty(),
                Some(body@),
            ),
    {
        let path = concat("/campaigns/", id);
        let path = concat(path.as_str(), "/schedule");
        self.client.post(path.as_str(), body)
    }

    /// Prepares the cancelling of a scheduled campaign.
    pub fn cancel(&self, id: &str) -> (request: Request)
        ensures
            self.spec_client().prepares(
                request,
                Method::Post,
                "/campaigns/"@ + id@ + "/cancel"@,
                Seq::empty(),
                Some("null"@),
            ),
    {
        let path = concat("/campaigns/", id);
        let path = concat(path.as_str(), "/cancel");
        self.client.post(path.as_str(), "null".to_string())
    }

    /// Prepares the copying of a campaign.
    pub fn clone(&self, id: &str) -> (request: Request)
        ensures
            self.spec_client().prepares(
                request,
                Method::Post,
                "/campaigns/"@ + id@ + "/clone"@,
                Seq::empty(),
                Some("null"@),
            ),
    {
        let path = concat("/campaigns/", id);
        let path = concat(path.as_str(), "/clone");
        self.client.post(path.as_str(), "null".to_string())
    }
}

} // verus!

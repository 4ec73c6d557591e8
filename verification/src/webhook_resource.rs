//! The webhooks resource: requests that manage webhook endpoints and their
//! deliveries.

use vstd::prelude::*;
use crate::client::{Method, Request, Sendly};
use crate::text::{concat, pairs_text};

verus! {

/// Webhooks resource: the endpoints that events are delivered to.
#[derive(Debug, Clone)]
pub struct WebhooksResource<'a> {
    client: &'a Sendly,
}

impl<'a> WebhooksResource<'a> {
    /// The client that the resource sends through.
    pub closed spec fn spec_client(&self) -> &Sendly {
        self.client
    }

    /// Creates the resource of a client.
    pub fn new(client: &'a Sendly) -> (resource: Self)
        ensures
            resource.spec_client() == client,
    {
        WebhooksResource { client }
    }

    /// Prepares the creation of a webhook; `body` is the JSON text of the
    /// request.
    pub fn create_with_options(&self, body: String) -> (request: Request)
        ensures
            self.spec_client().prepares(
                request,
                Method::Post,
                "/webhooks"@,
                Seq::empty(),
                Some(body@),
            ),
    {
        self.client.post("/webhooks", body)
    }

    /// Prepares a listing of webhooks.
    pub fn list(&self) -> (request: Request)
        ensures
            self.spec_client().prepares(
                request,
                Method::Get,
                "/webhooks"@,
                Seq::empty(),
                None,
            ),
    {
        let request = self.client.get("/webhooks", Vec::new());
        assert(pairs_text(request.query@) =~= Seq::empty());
        request
    }

    /// Prepares the fetching of one webhook.
    pub fn get(&self, id: &str) -> (request: Request)
        ensures
            self.spec_client().prepares(
                request,
                Method::Get,
                "/webhooks/"@ + id@,
                Seq::empty(),
                None,
            ),
    {
        let path = concat("/webhooks/", id);
        let request = self.client.get(path.as_str(), Vec::new());
        assert(pairs_text(request.query@) =~= Seq::empty());
        request
    }

    /// Prepares a change of a webhook; `body` is the JSON text of the change.
    pub fn update(&self, id: &str, body: String) -> (request: Request)
        ensures
            self.spec_client().prepares(
                request,
                Method::Patch,
                "/webhooks/"@ + id@,
                Seq::empty(),
                Some(body@),
            ),
    {
        let path = concat("/webhooks/", id);
        self.client.patch(path.as_str(), body)
    }

    /// Prepares the deletion of a webhook.
    pub fn delete(&self, id: &str) -> (request: Request)
        ensures
            self.spec_client().prepares(
                request,
                Method::Delete,
                "/webhooks/"@ + id@,
                Seq::empty(),
                None,
            ),
    {
        let path = concat("/webhooks/", id);
        self.client.delete(path.as_str())
    }

    /// Prepares the sending of a test event to a webhook.
    pub fn test(&self, id: &str) -> (request: Request)
        ensures
            self.spec_client().prepares(
                request,
                Method::Post,
                "/webhooks/"@ + id@ + "/test"@,
                Seq::empty(),
                Some("null"@),
            ),
    {
        let path = concat("/webhooks/", id);
        let path = concat(path.as_str(), "/test");
        self.client.post(path.as_str(), "null".to_string())
    }

    /// Prepares the replacing of the secret of a webhook.
    pub fn rotate_secret(&self, id: &str) -> (request: Request)
        ensures
            self.spec_client().prepares(
                request,
                Method::Post,
                "/webhooks/"@ + id@ + "/rotate-secret"@,
                Seq::empty(),
                Some("null"@),
            ),
    {
        let path = concat("/webhooks/", id);
        let path = concat(path.as_str(), "/rotate-secret");
        self.client.post(path.as_str(), "null".to_string())
    }

    /// Prepares a listing of the deliveries of a webhook with the given query
    /// parameters.
    pub fn list_deliveries(&self, id: &str, query: Vec<(String, String)>) -> (request: Request)
        ensures
            self.spec_client().prepares(
                request,
                Method::Get,
                "/webhooks/"@ + id@ + "/deliveries"@,
                pairs_text(query@),
                None,
            ),
    {
        let path = concat("/webhooks/", id);
        let path = concat(path.as_str(), "/deliveries");
        self.client.get(path.as_str(), query)
    }

    /// Prepares the fetching of one delivery.
    pub fn get_delivery(&self, webhook_id: &str, delivery_id: &str) -> (request: Request)
        ensures
            self.spec_client().prepares(
                request,
                Method::Get,
                "/webhooks/"@ + webhook_id@ + "/deliveries/"@ + delivery_id@,
                Seq::empty(),
                None,
            ),
    {
        let path = concat("/webhooks/", webhook_id);
        let path = concat(path.as_str(), "/deliveries/");
        let path = concat(path.as_str(), delivery_id);
        let request = self.client.get(path.as_str(), Vec::new());
        assert(pairs_text(request.query@) =~= Seq::empty());
        request
    }

    /// Prepares a new attempt of a delivery.
    pub fn retry_delivery(&self, webhook_id: &str, delivery_id: &str) -> (request: Request)
        ensures
            self.spec_client().prepares(
                request,
                Method::Post,
                "/webhooks/"@ + webhook_id@ + "/deliveries/"@ + delivery_id@ + "/retry"@,
                Seq::empty(),
                Some("null"@),
            ),
    {
        let path = concat("/webhooks/", webhook_id);
        let path = concat(path.as_str(), "/deliveries/");
        let path = concat(path.as_str(), delivery_id);
        let path = concat(path.as_str(), "/retry");
        self.client.post(path.as_str(), "null".to_string())
    }

    /// Prepares a listing of the event types that can be subscribed to.
    pub fn list_event_types(&self) -> (request: Request)
        ensures
            self.spec_client().prepares(
                request,
                Method::Get,
                "/webhooks/event-types"@,
                Seq::empty(),
                None,
            ),
    {
        let request = self.client.get("/webhooks/event-types", Vec::new());
        assert(pairs_text(request.query@) =~= Seq::empty());
        request
    }
}

impl Sendly {
    /// Returns the webhooks resource.
    pub fn webhooks(&self) -> (resource: WebhooksResource<'_>)
        ensures
            resource.spec_client() == self,
    {
        WebhooksResource::new(self)
    }
}

} // verus!

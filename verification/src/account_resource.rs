//! The account resource: the account, its credits and its API keys.

use vstd::prelude::*;
use crate::client::{Method, Request, Sendly};
use crate::text::{concat, pairs_text};

verus! {

/// How much an API key has been used.
#[derive(Debug, Clone)]
pub struct ApiKeyUsage {
    /// Requests made with the key.
    pub total_requests: i64,
    /// Requests that succeeded.
    pub successful_requests: i64,
    /// Requests that failed.
    pub failed_requests: i64,
    /// When the key was last used.
    pub last_request_at: Option<String>,
    /// Credits spent through the key.
    pub credits_used: i64,
}

impl Default for ApiKeyUsage {
    fn default() -> (usage: Self)
        ensures
            usage.total_requests == 0,
            usage.successful_requests == 0,
            usage.failed_requests == 0,
            usage.last_request_at is None,
            usage.credits_used == 0,
    {
        ApiKeyUsage {
            total_requests: 0,
            successful_requests: 0,
            failed_requests: 0,
            last_request_at: None,
            credits_used: 0,
        }
    }
}

/// The usage that an answer stands for: what its `usage` field holds where
/// it is there, else what its `data` field holds, else a usage of all zeros.
pub fn usage_of(usage: Option<ApiKeyUsage>, data: Option<ApiKeyUsage>) -> (found: ApiKeyUsage)
    ensures
        usage is Some ==> found == usage->0,
        usage is None && data is Some ==> found == data->0,
        usage is None && data is None ==> {
            &&& found.total_requests == 0
            &&& found.successful_requests == 0
            &&& found.failed_requests == 0
            &&& found.last_request_at is None
            &&& found.credits_used == 0
        },
{
    match usage {
        Some(found) => found,
        None => match data {
            Some(found) => found,
            None => ApiKeyUsage::default(),
        },
    }
}

/// Account resource: the account, its credits and its API keys.
#[derive(Debug, Clone)]
pub struct AccountResource<'a> {
    client: &'a Sendly,
}

impl<'a> AccountResource<'a> {
    /// The client that the resource sends through.
    pub closed spec fn spec_client(&self) -> &Sendly {
        self.client
    }

    /// Creates the resource of a client.
    pub fn new(client: &'a Sendly) -> (resource: Self)
        ensures
            resource.spec_client() == client,
    {
        AccountResource { client }
    }

    /// Prepares the fetching of the account.
    pub fn get(&self) -> (request: Request)
        ensures
            self.spec_client().prepares(
                request,
                Method::Get,
                "/account"@,
                Seq::empty(),
                None,
            ),
    {
        let request = self.client.get("/account", Vec::new());
        assert(pairs_text(request.query@) =~= Seq::empty());
        request
    }

    /// Prepares the fetching of the credit balance.
    pub fn credits(&self) -> (request: Request)
        ensures
            self.spec_client().prepares(
                request,
                Method::Get,
                "/account/credits"@,
                Seq::empty(),
                None,
            ),
    {
        let request = self.client.get("/account/credits", Vec::new());
        assert(pairs_text(request.query@) =~= Seq::empty());
        request
    }

    /// Prepares a listing of credit transactions with the given query
    /// parameters.
    pub fn transactions(&self, query: Vec<(String, String)>) -> (request: Request)
        ensures
            self.spec_client().prepares(
                request,
                Method::Get,
                "/account/transactions"@,
                pairs_text(query@),
                None,
            ),
    {
        self.client.get("/account/transactions", query)
    }

    /// Prepares a listing of the API keys.
    pub fn api_keys(&self) -> (request: Request)
        ensures
            self.spec_client().prepares(
                request,
                Method::Get,
                "/account/keys"@,
                Seq::empty(),
                None,
            ),
    {
        let request = self.client.get("/account/keys", Vec::new());
        assert(pairs_text(request.query@) =~= Seq::empty());
        request
    }

    /// Prepares the creation of an API key; `body` is the JSON text of the
    /// request.
    pub fn create_api_key_with_options(&self, body: String) -> (request: Request)
        ensures
            self.spec_client().prepares(
                request,
                Method::Post,
                "/account/keys"@,
                Seq::empty(),
                Some(body@),
            ),
    {
        self.client.post("/account/keys", body)
    }

    /// Prepares the fetching of one API key.
    pub fn get_api_key(&self, id: &str) -> (request: Request)
        ensures
            self.spec_client().prepares(
                request,
                Method::Get,
                "/account/keys/"@ + id@,
                Seq::empty(),
                None,
            ),
    {
        let path = concat("/account/keys/", id);
        let request = self.client.get(path.as_str(), Vec::new());
        assert(pairs_text(request.query@) =~= Seq::empty());
        request
    }

    /// Prepares the fetching of the usage of an API key.
    pub fn get_api_key_usage(&self, id: &str) -> (request: Request)
        ensures
            self.spec_client().prepares(
                request,
                Method::Get,
                "/account/keys/"@ + id@ + "/usage"@,
                Seq::empty(),
                None,
            ),
    {
        let path = concat("/account/keys/", id);
        let path = concat(path.as_str(), "/usage");
        let request = self.client.get(path.as_str(), Vec::new());
        assert(pairs_text(request.query@) =~= Seq::empty());
        request
    }

    /// Prepares the revoking of an API key.
    pub fn revoke_api_key(&self, id: &str) -> (request: Request)
        ensures
            self.spec_client().prepares(
                request,
                Method::Delete,
                "/account/keys/"@ + id@,
                Seq::empty(),
                None,
            ),
    {
        let path = concat("/account/keys/", id);
        self.client.delete(path.as_str())
    }
}

impl Sendly {
    /// Returns the account resource.
    pub fn account(&self) -> (resource: AccountResource<'_>)
        ensures
            resource.spec_client() == self,
    {
        AccountResource::new(self)
    }
}

} // verus!

//! Contacts and contact lists: the requests that create, change and import
//! them, and the options for listing them.

use vstd::prelude::*;
use std::collections::HashMap;
use crate::client::{Method, Request, Sendly};
use crate::text::{
    clamp_limit, concat, optional_decimal, optional_pair, pairs_text, push_number, push_text,
};

verus! {

/// A list of contacts.
#[derive(Debug, Clone)]
pub struct ContactList {
    /// Unique identifier of the list.
    pub id: String,
    /// Name of the list.
    pub name: String,
    /// Description of the list.
    pub description: Option<String>,
    /// Number of contacts on the list.
    pub contact_count: i32,
    /// Creation timestamp.
    pub created_at: Option<String>,
    /// Timestamp of the latest change.
    pub updated_at: Option<String>,
}

/// A page of contact lists.
#[derive(Debug, Clone)]
pub struct ContactListsResponse {
    /// Lists in this page.
    pub lists: Vec<ContactList>,
    /// Total count of lists.
    pub total: i32,
    /// Page size that was asked for.
    pub limit: i32,
    /// Number of lists that were skipped.
    pub offset: i32,
}

/// Options for listing contacts.
#[derive(Debug, Clone)]
pub struct ListContactsOptions {
    /// Maximum contacts to return (max: 100).
    pub limit: Option<u32>,
    /// Number of contacts to skip.
    pub offset: Option<u32>,
    /// Text to search for.
    pub search: Option<String>,
    /// Only contacts on this list.
    pub list_id: Option<String>,
}

impl Default for ListContactsOptions {
    fn default() -> (options: Self)
        ensures
            options.limit is None,
            options.offset is None,
            options.search is None,
            options.list_id is None,
    {
        ListContactsOptions { limit: None, offset: None, search: None, list_id: None }
    }
}

impl ListContactsOptions {
    /// Creates options that ask for nothing in particular.
    pub fn new() -> (options: Self)
        ensures
            options.limit is None,
            options.offset is None,
            options.search is None,
            options.list_id is None,
    {
        ListContactsOptions { limit: None, offset: None, search: None, list_id: None }
    }

    /// Sets the page size; more than 100 becomes 100.
    pub fn limit(self, limit: u32) -> (options: Self)
        ensures
            options.limit == Some(clamp_limit(limit)),
            options.offset == self.offset,
            options.search == self.search,
            options.list_id == self.list_id,
    {
        let capped: u32 = if limit < 100 {
            limit
        } else {
            100
        };
        ListContactsOptions {
            limit: Some(capped),
            offset: self.offset,
            search: self.search,
            list_id: self.list_id,
        }
    }

    /// Sets the number of contacts to skip.
    pub fn offset(self, offset: u32) -> (options: Self)
        ensures
            options.limit == self.limit,
            options.offset == Some(offset),
            options.search == self.search,
            options.list_id == self.list_id,
    {
        ListContactsOptions {
            limit: self.limit,
            offset: Some(offset),
            search: self.search,
            list_id: self.list_id,
        }
    }

    /// Sets the text to search for.
    pub fn search(self, search: &str) -> (options: Self)
        ensures
            options.limit == self.limit,
            options.offset == self.offset,
            options.search is Some,
            options.search->0@ == search@,
            options.list_id == self.list_id,
    {
        ListContactsOptions {
            limit: self.limit,
            offset: self.offset,
            search: Some(search.to_string()),
            list_id: self.list_id,
        }
    }

    /// Sets the list whose contacts are asked for.
    pub fn list_id(self, list_id: &str) -> (options: Self)
        ensures
            options.limit == self.limit,
            options.offset == self.offset,
            options.search == self.search,
            options.list_id is Some,
            options.list_id->0@ == list_id@,
    {
        ListContactsOptions {
            limit: self.limit,
            offset: self.offset,
            search: self.search,
            list_id: Some(list_id.to_string()),
        }
    }

    /// The query parameters that the options stand for: `limit`, `offset`,
    /// `search` and `list_id`, in this order, each only where it is set.
    pub open spec fn spec_query_params(&self) -> Seq<(Seq<char>, Seq<char>)> {
        optional_pair("limit"@, optional_decimal(self.limit)) + optional_pair(
            "offset"@,
            optional_decimal(self.offset),
        ) + optional_pair(
            "search"@,
            match self.search {
                Some(t) => Some(t@),
                None => None,
            },
        ) + optional_pair(
            "list_id"@,
            match self.list_id {
                Some(t) => Some(t@),
                None => None,
            },
        )
    }

    /// Writes the options as query parameters.
    pub fn to_query_params(&self) -> (params: Vec<(String, String)>)
        ensures
            pairs_text(params@) == self.spec_query_params(),
    {
        let mut params: Vec<(String, String)> = Vec::new();
        assert(pairs_text(params@) =~= Seq::empty());
        push_number(&mut params, "limit", self.limit);
        push_number(&mut params, "offset", self.offset);
        let search: Option<&str> = match &self.search {
            Some(t) => Some(t.as_str()),
            None => None,
        };
        push_text(&mut params, "search", search);
        let list_id: Option<&str> = match &self.list_id {
            Some(t) => Some(t.as_str()),
            None => None,
        };
        push_text(&mut params, "list_id", list_id);
        assert(pairs_text(params@) =~= self.spec_query_params());
        params
    }
}

/// Request to create a contact list.
#[derive(Debug, Clone)]
pub struct CreateContactListRequest {
    /// Name of the list.
    pub name: String,
    /// Description of the list.
    pub description: Option<String>,
}

impl CreateContactListRequest {
    /// Creates a request with the required fields; the optional ones are
    /// left out.
    pub fn new(name: &str) -> (request: Self)
        ensures
            request.name@ == name@,
            request.description is None,
    {
        CreateContactListRequest {
            name: name.to_string(),
            description: None,
        }
    }

    /// Sets the description.
    pub fn description(self, description: &str) -> (request: Self)
        ensures
            request.name == self.name,
            request.description is Some,
            request.description->0@ == description@,
    {
        CreateContactListRequest {
            name: self.name,
            description: Some(description.to_string()),
        }
    }
}

/// Request to update a contact list; only the fields that are set change.
#[derive(Debug, Clone)]
pub struct UpdateContactListRequest {
    /// New name.
    pub name: Option<String>,
    /// New description.
    pub description: Option<String>,
}

impl UpdateContactListRequest {
    /// Creates a request that changes nothing.
    pub fn new() -> (request: Self)
        ensures
            request.name is None,
            request.description is None,
    {
        UpdateContactListRequest {
            name: None,
            description: None,
        }
    }

    /// Sets the new name.
    pub fn name(self, name: &str) -> (request: Self)
        ensures
            request.name is Some,
            request.name->0@ == name@,
            request.description == self.description,
    {
        UpdateContactListRequest {
            name: Some(name.to_string()),
            description: self.description,
        }
    }

    /// Sets the new description.
    pub fn description(self, description: &str) -> (request: Self)
        ensures
            request.name == self.name,
            request.description is Some,
            request.description->0@ == description@,
    {
        UpdateContactListRequest {
            name: self.name,
            description: Some(description.to_string()),
        }
    }
}

/// Request to put contacts on a list.
#[derive(Debug, Clone)]
pub struct AddContactsRequest {
    /// Identifiers of the contacts.
    pub contact_ids: Vec<String>,
}

/// One contact of an import.
#[derive(Debug, Clone)]
pub struct ImportContactItem {
    /// Phone number of the contact.
    pub phone: String,
    /// Name of the contact.
    pub name: Option<String>,
    /// Email address of the contact.
    pub email: Option<String>,
    /// When the contact opted in (ISO 8601).
    pub opted_in_at: Option<String>,
}

impl ImportContactItem {
    /// Creates a request with the required fields; the optional ones are
    /// left out.
    pub fn new(phone: &str) -> (request: Self)
        ensures
            request.phone@ == phone@,
            request.name is None,
            request.email is None,
            request.opted_in_at is None,
    {
        ImportContactItem {
            phone: phone.to_string(),
            name: None,
            email: None,
            opted_in_at: None,
        }
    }

    /// Sets the name.
    pub fn name(self, name: &str) -> (request: Self)
        ensures
            request.phone == self.phone,
            request.name is Some,
            request.name->0@ == name@,
            request.email == self.email,
            request.opted_in_at == self.opted_in_at,
    {
        ImportContactItem {
            phone: self.phone,
            name: Some(name.to_string()),
            email: self.email,
            opted_in_at: self.opted_in_at,
        }
    }

    /// Sets the email address.
    pub fn email(self, email: &str) -> (request: Self)
        ensures
            request.phone == self.phone,
            request.name == self.name,
            request.email is Some,
            request.email->0@ == email@,
            request.opted_in_at == self.opted_in_at,
    {
        ImportContactItem {
            phone: self.phone,
            name: self.name,
            email: Some(email.to_string()),
            opted_in_at: self.opted_in_at,
        }
    }
}

/// Request to import contacts.
#[derive(Debug, Clone)]
pub struct ImportContactsRequest {
    /// Contacts to import.
    pub contacts: Vec<ImportContactItem>,
    /// List to put the contacts on.
    pub list_id: Option<String>,
    /// When the contacts opted in, where the entries do not say.
    pub opted_in_at: Option<String>,
}

/// Why one contact of an import was refused.
#[derive(Debug, Clone)]
pub struct ImportContactsError {
    /// Position of the contact in the request.
    pub index: i32,
    /// Phone number of the contact.
    pub phone: String,
    /// Reason for the refusal.
    pub error: String,
}

/// Result of an import.
#[derive(Debug, Clone)]
pub struct ImportContactsResponse {
    /// Contacts imported.
    pub imported: i32,
    /// Contacts skipped as duplicates.
    pub skipped_duplicates: i32,
    /// Contacts refused.
    pub errors: Vec<ImportContactsError>,
    /// Number of contacts refused.
    pub total_errors: i32,
}

/// Contacts resource.
#[derive(Debug, Clone)]
pub struct ContactsResource<'a> {
    client: &'a Sendly,
}

impl<'a> ContactsResource<'a> {
    /// The client that the resource sends through.
    pub closed spec fn spec_client(&self) -> &Sendly {
        self.client
    }

    /// Creates the resource of a client.
    pub fn new(client: &'a Sendly) -> (resource: Self)
        ensures
            resource.spec_client() == client,
    {
        ContactsResource { client }
    }

    /// Prepares a listing of contacts.
    pub fn list(&self, options: ListContactsOptions) -> (request: Request)
        ensures
            self.spec_client().prepares(
                request,
                Method::Get,
                "/contacts"@,
                options.spec_query_params(),
                None,
            ),
    {
        let query = options.to_query_params();
        self.client.get("/contacts", query)
    }

    /// Prepares the fetching of one contact.
    pub fn get(&self, id: &str) -> (request: Request)
        ensures
            self.spec_client().prepares(
                request,
                Method::Get,
                "/contacts/"@ + id@,
                Seq::empty(),
                None,
            ),
    {
        let path = concat("/contacts/", id);
        let request = self.client.get(path.as_str(), Vec::new());
        assert(pairs_text(request.query@) =~= Seq::empty());
        request
    }

    /// Prepares the creation of a contact, whose JSON text is `body`.
    pub fn create(&self, body: String) -> (request: Request)
        ensures
            self.spec_client().prepares(
                request,
                Method::Post,
                "/contacts"@,
                Seq::empty(),
                Some(body@),
            ),
    {
        self.client.post("/contacts", body)
    }

    /// Prepares a change of a contact; `body` is the JSON text of the change.
    pub fn update(&self, id: &str, body: String) -> (request: Request)
        ensures
            self.spec_client().prepares(
                request,
                Method::Patch,
                "/contacts/"@ + id@,
                Seq::empty(),
                Some(body@),
            ),
    {
        let path = concat("/contacts/", id);
        self.client.patch(path.as_str(), body)
    }

    /// Prepares the deletion of a contact.
    pub fn delete(&self, id: &str) -> (request: Request)
        ensures
            self.spec_client().prepares(
                request,
                Method::Delete,
                "/contacts/"@ + id@,
                Seq::empty(),
                None,
            ),
    {
        let path = concat("/contacts/", id);
        self.client.delete(path.as_str())
    }

    /// Prepares an import of contacts, whose JSON text is `body`.
    pub fn import(&self, body: String) -> (request: Request)
        ensures
            self.spec_client().prepares(
                request,
                Method::Post,
                "/contacts/import"@,
                Seq::empty(),
                Some(body@),
            ),
    {
        self.client.post("/contacts/import", body)
    }
}

impl<'a> ContactsResource<'a> {
    /// Returns the contact lists resource of the same client.
    pub fn lists(&self) -> (resource: ContactListsResource<'a>)
        ensures
            resource.spec_client() == self.spec_client(),
    {
        ContactListsResource::new(self.client)
    }
}

/// Contact lists resource.
#[derive(Debug, Clone)]
pub struct ContactListsResource<'a> {
    client: &'a Sendly,
}

impl<'a> ContactListsResource<'a> {
    /// The client that the resource sends through.
    pub closed spec fn spec_client(&self) -> &Sendly {
        self.client
    }

    /// Creates the resource of a client.
    pub fn new(client: &'a Sendly) -> (resource: Self)
        ensures
            resource.spec_client() == client,
    {
        ContactListsResource { client }
    }

    /// Prepares a listing of contact lists.
    pub fn list(&self) -> (request: Request)
        ensures
            self.spec_client().prepares(
                request,
                Method::Get,
                "/contact-lists"@,
                Seq::empty(),
                None,
            ),
    {
        let request = self.client.get("/contact-lists", Vec::new());
        assert(pairs_text(request.query@) =~= Seq::empty());
        request
    }

    /// Prepares the fetching of one contact list.
    pub fn get(&self, id: &str) -> (request: Request)
        ensures
            self.spec_client().prepares(
                request,
                Method::Get,
                "/contact-lists/"@ + id@,
                Seq::empty(),
                None,
            ),
    {
        let path = concat("/contact-lists/", id);
        let request = self.client.get(path.as_str(), Vec::new());
        assert(pairs_text(request.query@) =~= Seq::empty());
        request
    }

    /// Prepares the creation of a contact list, whose JSON text is `body`.
    pub fn create(&self, body: String) -> (request: Request)
        ensures
            self.spec_client().prepares(
                request,
                Method::Post,
                "/contact-lists"@,
                Seq::empty(),
                Some(body@),
            ),
    {
        self.client.post("/contact-lists", body)
    }

    /// Prepares a change of a contact list; `body` is the JSON text of the change.
    pub fn update(&self, id: &str, body: String) -> (request: Request)
        ensures
            self.spec_client().prepares(
                request,
                Method::Patch,
                "/contact-lists/"@ + id@,
                Seq::empty(),
                Some(body@),
            ),
    {
        let path = concat("/contact-lists/", id);
        self.client.patch(path.as_str(), body)
    }

    /// Prepares the deletion of a contact list.
    pub fn delete(&self, id: &str) -> (request: Request)
        ensures
            self.spec_client().prepares(
                request,
                Method::Delete,
                "/contact-lists/"@ + id@,
                Seq::empty(),
                None,
            ),
    {
        let path = concat("/contact-lists/", id);
        self.client.delete(path.as_str())
    }

    /// Prepares the adding of contacts to a list; `body` is the JSON text of an
    /// [`AddContactsRequest`].
    pub fn add_contacts(&self, list_id: &str, body: String) -> (request: Request)
        ensures
            self.spec_client().prepares(
                request,
                Method::Post,
                "/contact-lists/"@ + list_id@ + "/contacts"@,
                Seq::empty(),
                Some(body@),
            ),
    {
        let path = concat("/contact-lists/", list_id);
        let path = concat(path.as_str(), "/contacts");
        self.client.post(path.as_str(), body)
    }

    /// Prepares the removal of one contact from a list.
    pub fn remove_contact(&self, list_id: &str, contact_id: &str) -> (request: Request)
        ensures
            self.spec_client().prepares(
                request,
                Method::Delete,
                "/contact-lists/"@ + list_id@ + "/contacts/"@ + contact_id@,
                Seq::empty(),
                None,
            ),
    {
        let path = concat("/contact-lists/", list_id);
        let path = concat(path.as_str(), "/contacts/");
        let path = concat(path.as_str(), contact_id);
        self.client.delete(path.as_str())
    }
}

/// A JSON value, as `serde_json` holds it.  The library carries such values
/// and does not look into them.
#[verifier::external_type_specification]
#[verifier::external_body]
pub struct ExJsonValue(serde_json::Value);

/// A contact.
#[derive(Debug, Clone)]
pub struct Contact {
    /// Unique identifier of the contact.
    pub id: String,
    /// Phone number in E.164 format.
    pub phone_number: String,
    /// Name of the contact.
    pub name: Option<String>,
    /// Email address of the contact.
    pub email: Option<String>,
    /// Free-form data kept with the contact.
    pub metadata: Option<HashMap<String, serde_json::Value>>,
    /// Creation timestamp.
    pub created_at: Option<String>,
    /// Timestamp of the latest change.
    pub updated_at: Option<String>,
}

/// A page of contacts.
#[derive(Debug, Clone)]
pub struct ContactListResponse {
    /// Contacts in this page.
    pub contacts: Vec<Contact>,
    /// Total count of contacts.
    pub total: i32,
    /// Page size that was asked for.
    pub limit: i32,
    /// Number of contacts that were skipped.
    pub offset: i32,
}

/// Request to create a contact.
#[derive(Debug, Clone)]
pub struct CreateContactRequest {
    /// Phone number in E.164 format.
    pub phone_number: String,
    /// Name of the contact.
    pub name: Option<String>,
    /// Email address of the contact.
    pub email: Option<String>,
    /// Free-form data kept with the contact.
    pub metadata: Option<HashMap<String, serde_json::Value>>,
}

impl CreateContactRequest {
    /// Creates a request with the required fields; the optional ones are
    /// left out.
    pub fn new(phone_number: &str) -> (request: Self)
        ensures
            request.phone_number@ == phone_number@,
            request.name is None,
            request.email is None,
            request.metadata is None,
    {
        CreateContactRequest {
            phone_number: phone_number.to_string(),
            name: None,
            email: None,
            metadata: None,
        }
    }

    /// Sets the name.
    pub fn name(self, name: &str) -> (request: Self)
        ensures
            request.phone_number == self.phone_number,
            request.name is Some,
            request.name->0@ == name@,
            request.email == self.email,
            request.metadata == self.metadata,
    {
        CreateContactRequest {
            phone_number: self.phone_number,
            name: Some(name.to_string()),
            email: self.email,
            metadata: self.metadata,
        }
    }

    /// Sets the email address.
    pub fn email(self, email: &str) -> (request: Self)
        ensures
            request.phone_number == self.phone_number,
            request.name == self.name,
            request.email is Some,
            request.email->0@ == email@,
            request.metadata == self.metadata,
    {
        CreateContactRequest {
            phone_number: self.phone_number,
            name: self.name,
            email: Some(email.to_string()),
            metadata: self.metadata,
        }
    }

    /// Sets the free-form data.
    pub fn metadata(self, metadata: HashMap<String, serde_json::Value>) -> (request: Self)
        ensures
            request.phone_number == self.phone_number,
            request.name == self.name,
            request.email == self.email,
            request.metadata == Some(metadata),
    {
        CreateContactRequest {
            phone_number: self.phone_number,
            name: self.name,
            email: self.email,
            metadata: Some(metadata),
        }
    }
}

/// Request to update a contact; only the fields that are set change.
#[derive(Debug, Clone)]
pub struct UpdateContactRequest {
    /// New phone number.
    pub phone_number: Option<String>,
    /// New name.
    pub name: Option<String>,
    /// New email address.
    pub email: Option<String>,
    /// New free-form data.
    pub metadata: Option<HashMap<String, serde_json::Value>>,
}

impl UpdateContactRequest {
    /// Creates a request that changes nothing.
    pub fn new() -> (request: Self)
        ensures
            request.phone_number is None,
            request.name is None,
            request.email is None,
            request.metadata is None,
    {
        UpdateContactRequest {
            phone_number: None,
            name: None,
            email: None,
            metadata: None,
        }
    }

    /// Sets the new phone number.
    pub fn phone_number(self, phone_number: &str) -> (request: Self)
        ensures
            request.phone_number is Some,
            request.phone_number->0@ == phone_number@,
            request.name == self.name,
            request.email == self.email,
            request.metadata == self.metadata,
    {
        UpdateContactRequest {
            phone_number: Some(phone_number.to_string()),
            name: self.name,
            email: self.email,
            metadata: self.metadata,
        }
    }

    /// Sets the new name.
    pub fn name(self, name: &str) -> (request: Self)
        ensures
            request.phone_number == self.phone_number,
            request.name is Some,
            request.name->0@ == name@,
            request.email == self.email,
            request.metadata == self.metadata,
    {
        UpdateContactRequest {
            phone_number: self.phone_number,
            name: Some(name.to_string()),
            email: self.email,
            metadata: self.metadata,
        }
    }

    /// Sets the new email address.
    pub fn email(self, email: &str) -> (request: Self)
        ensures
            request.phone_number == self.phone_number,
            request.name == self.name,
            request.email is Some,
            request.email->0@ == email@,
            request.metadata == self.metadata,
    {
        UpdateContactRequest {
            phone_number: self.phone_number,
            name: self.name,
            email: Some(email.to_string()),
            metadata: self.metadata,
        }
    }

    /// Sets the new free-form data.
    pub fn metadata(self, metadata: HashMap<String, serde_json::Value>) -> (request: Self)
        ensures
            request.phone_number == self.phone_number,
            request.name == self.name,
            request.email == self.email,
            request.metadata == Some(metadata),
    {
        UpdateContactRequest {
            phone_number: self.phone_number,
            name: self.name,
            email: self.email,
            metadata: Some(metadata),
        }
    }
}

} // verus!

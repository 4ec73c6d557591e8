use sendly::account_resource::{usage_of, AccountResource, ApiKeyUsage};
use sendly::campaigns::{CampaignStatus, CampaignsResource, ListCampaignsOptions};
use sendly::client::{Method, Request, Sendly, SendlyConfig};
use sendly::contacts::{
    Contact, ContactsResource, CreateContactRequest, ListContactsOptions, UpdateContactRequest,
};
use sendly::verify::{
    Channel, CreateSessionRequest, DeliveryStatus, ListVerificationsOptions,
    SendVerificationRequest, Verification, VerificationStatus, VerifyResource,
};
use sendly::webhook_resource::WebhooksResource;
use std::collections::HashMap;

fn client() -> Sendly {
    Sendly::with_config("test_api_key", SendlyConfig::new().base_url("http://mock"))
}

fn pair(name: &str, value: &str) -> (String, String) {
    (name.to_string(), value.to_string())
}

fn shape(request: &Request) -> (Method, &str, Option<&str>) {
    (request.method, request.url.as_str(), request.body.as_deref())
}

#[test]
fn campaign_requests_are_put_together() {
    let client = client();
    let campaigns = CampaignsResource::new(&client);
    let listed = campaigns.list(ListCampaignsOptions::new().limit(5).status(CampaignStatus::Sent));
    assert_eq!(shape(&listed), (Method::Get, "http://mock/campaigns", None));
    assert_eq!(listed.query, vec![pair("limit", "5"), pair("status", "sent")]);
    assert_eq!(shape(&campaigns.get("c1")), (Method::Get, "http://mock/campaigns/c1", None));
    assert_eq!(
        shape(&campaigns.create("{\"name\":\"n\"}".to_string())),
        (Method::Post, "http://mock/campaigns", Some("{\"name\":\"n\"}"))
    );
    assert_eq!(
        shape(&campaigns.update("c1", "{}".to_string())),
        (Method::Patch, "http://mock/campaigns/c1", Some("{}"))
    );
    assert_eq!(shape(&campaigns.delete("c1")), (Method::Delete, "http://mock/campaigns/c1", None));
    assert_eq!(
        shape(&campaigns.preview("c1")),
        (Method::Get, "http://mock/campaigns/c1/preview", None)
    );
    assert_eq!(
        shape(&campaigns.send("c1")),
        (Method::Post, "http://mock/campaigns/c1/send", Some("null"))
    );
    assert_eq!(
        shape(&campaigns.schedule("c1", "{\"scheduled_at\":\"t\"}".to_string())),
        (Method::Post, "http://mock/campaigns/c1/schedule", Some("{\"scheduled_at\":\"t\"}"))
    );
    assert_eq!(
        shape(&campaigns.cancel("c1")),
        (Method::Post, "http://mock/campaigns/c1/cancel", Some("null"))
    );
    assert_eq!(
        shape(&campaigns.clone("c1")),
        (Method::Post, "http://mock/campaigns/c1/clone", Some("null"))
    );
    assert_eq!(campaigns.send("c1").headers.len(), 4);
    assert!(campaigns.send("c1").query.is_empty());
}

#[test]
fn contact_requests_are_put_together() {
    let client = client();
    let contacts = ContactsResource::new(&client);
    let listed = contacts.list(ListContactsOptions::new().search("ann").offset(3));
    assert_eq!(shape(&listed), (Method::Get, "http://mock/contacts", None));
    assert_eq!(listed.query, vec![pair("offset", "3"), pair("search", "ann")]);
    assert_eq!(shape(&contacts.get("ct1")), (Method::Get, "http://mock/contacts/ct1", None));
    assert_eq!(
        shape(&contacts.create("{}".to_string())),
        (Method::Post, "http://mock/contacts", Some("{}"))
    );
    assert_eq!(
        shape(&contacts.update("ct1", "{}".to_string())),
        (Method::Patch, "http://mock/contacts/ct1", Some("{}"))
    );
    assert_eq!(shape(&contacts.delete("ct1")), (Method::Delete, "http://mock/contacts/ct1", None));
    assert_eq!(
        shape(&contacts.import("{}".to_string())),
        (Method::Post, "http://mock/contacts/import", Some("{}"))
    );

    let lists = contacts.lists();
    assert_eq!(shape(&lists.list()), (Method::Get, "http://mock/contact-lists", None));
    assert_eq!(shape(&lists.get("l1")), (Method::Get, "http://mock/contact-lists/l1", None));
    assert_eq!(
        shape(&lists.create("{}".to_string())),
        (Method::Post, "http://mock/contact-lists", Some("{}"))
    );
    assert_eq!(
        shape(&lists.update("l1", "{}".to_string())),
        (Method::Patch, "http://mock/contact-lists/l1", Some("{}"))
    );
    assert_eq!(shape(&lists.delete("l1")), (Method::Delete, "http://mock/contact-lists/l1", None));
    assert_eq!(
        shape(&lists.add_contacts("l1", "{\"contact_ids\":[]}".to_string())),
        (Method::Post, "http://mock/contact-lists/l1/contacts", Some("{\"contact_ids\":[]}"))
    );
    assert_eq!(
        shape(&lists.remove_contact("l1", "ct1")),
        (Method::Delete, "http://mock/contact-lists/l1/contacts/ct1", None)
    );
}

#[test]
fn verify_requests_are_put_together() {
    let client = client();
    let verify: VerifyResource = client.verify();
    assert_eq!(
        shape(&verify.send("{}".to_string())),
        (Method::Post, "http://mock/verify", Some("{}"))
    );
    assert_eq!(
        shape(&verify.resend("v1")),
        (Method::Post, "http://mock/verify/v1/resend", Some("null"))
    );
    assert_eq!(
        shape(&verify.check("v1", "{\"code\":\"123456\"}".to_string())),
        (Method::Post, "http://mock/verify/v1/check", Some("{\"code\":\"123456\"}"))
    );
    assert_eq!(shape(&verify.get("v1")), (Method::Get, "http://mock/verify/v1", None));
    let listed = verify.list(ListVerificationsOptions::new().status(VerificationStatus::Failed));
    assert_eq!(shape(&listed), (Method::Get, "http://mock/verify", None));
    assert_eq!(listed.query, vec![pair("status", "failed")]);
    let sessions = verify.sessions();
    assert_eq!(
        shape(&sessions.create("{}".to_string())),
        (Method::Post, "http://mock/verify/sessions", Some("{}"))
    );
    assert_eq!(
        shape(&sessions.validate("{\"token\":\"t\"}".to_string())),
        (Method::Post, "http://mock/verify/sessions/validate", Some("{\"token\":\"t\"}"))
    );
}

#[test]
fn account_requests_are_put_together() {
    let client = client();
    let account: AccountResource = client.account();
    assert_eq!(shape(&account.get()), (Method::Get, "http://mock/account", None));
    assert_eq!(shape(&account.credits()), (Method::Get, "http://mock/account/credits", None));
    let listed = account.transactions(vec![pair("limit", "10")]);
    assert_eq!(shape(&listed), (Method::Get, "http://mock/account/transactions", None));
    assert_eq!(listed.query, vec![pair("limit", "10")]);
    assert_eq!(shape(&account.api_keys()), (Method::Get, "http://mock/account/keys", None));
    assert_eq!(
        shape(&account.create_api_key_with_options("{\"name\":\"ci\"}".to_string())),
        (Method::Post, "http://mock/account/keys", Some("{\"name\":\"ci\"}"))
    );
    assert_eq!(
        shape(&account.get_api_key("k1")),
        (Method::Get, "http://mock/account/keys/k1", None)
    );
    assert_eq!(
        shape(&account.get_api_key_usage("k1")),
        (Method::Get, "http://mock/account/keys/k1/usage", None)
    );
    assert_eq!(
        shape(&account.revoke_api_key("k1")),
        (Method::Delete, "http://mock/account/keys/k1", None)
    );
}

#[test]
fn webhook_requests_are_put_together() {
    let client = client();
    let webhooks: WebhooksResource = client.webhooks();
    assert_eq!(
        shape(&webhooks.create_with_options("{}".to_string())),
        (Method::Post, "http://mock/webhooks", Some("{}"))
    );
    assert_eq!(shape(&webhooks.list()), (Method::Get, "http://mock/webhooks", None));
    assert_eq!(shape(&webhooks.get("w1")), (Method::Get, "http://mock/webhooks/w1", None));
    assert_eq!(
        shape(&webhooks.update("w1", "{}".to_string())),
        (Method::Patch, "http://mock/webhooks/w1", Some("{}"))
    );
    assert_eq!(shape(&webhooks.delete("w1")), (Method::Delete, "http://mock/webhooks/w1", None));
    assert_eq!(
        shape(&webhooks.test("w1")),
        (Method::Post, "http://mock/webhooks/w1/test", Some("null"))
    );
    assert_eq!(
        shape(&webhooks.rotate_secret("w1")),
        (Method::Post, "http://mock/webhooks/w1/rotate-secret", Some("null"))
    );
    let deliveries = webhooks.list_deliveries("w1", vec![pair("limit", "2")]);
    assert_eq!(shape(&deliveries), (Method::Get, "http://mock/webhooks/w1/deliveries", None));
    assert_eq!(deliveries.query, vec![pair("limit", "2")]);
    assert_eq!(
        shape(&webhooks.get_delivery("w1", "d1")),
        (Method::Get, "http://mock/webhooks/w1/deliveries/d1", None)
    );
    assert_eq!(
        shape(&webhooks.retry_delivery("w1", "d1")),
        (Method::Post, "http://mock/webhooks/w1/deliveries/d1/retry", Some("null"))
    );
    assert_eq!(
        shape(&webhooks.list_event_types()),
        (Method::Get, "http://mock/webhooks/event-types", None)
    );
}

#[test]
fn contact_builders() {
    let mut metadata = HashMap::new();
    metadata.insert("plan".to_string(), serde_json::Value::from("pro"));
    let request = CreateContactRequest::new("+15551234567");
    assert_eq!(request.phone_number, "+15551234567");
    assert!(request.name.is_none() && request.email.is_none() && request.metadata.is_none());
    let request = request.name("Ann").email("ann@example.com").metadata(metadata.clone());
    assert_eq!(request.name.as_deref(), Some("Ann"));
    assert_eq!(request.email.as_deref(), Some("ann@example.com"));
    assert_eq!(request.metadata, Some(metadata.clone()));
    assert_eq!(request.phone_number, "+15551234567");

    let update = UpdateContactRequest::new();
    assert!(update.phone_number.is_none() && update.metadata.is_none());
    let update = update.phone_number("+15559876543").name("Bob").email("b@example.com");
    assert_eq!(update.phone_number.as_deref(), Some("+15559876543"));
    assert_eq!(update.name.as_deref(), Some("Bob"));
    assert_eq!(update.email.as_deref(), Some("b@example.com"));
    assert_eq!(update.metadata(metadata.clone()).metadata, Some(metadata.clone()));

    let contact = Contact {
        id: "ct1".to_string(),
        phone_number: "+15551234567".to_string(),
        name: None,
        email: None,
        metadata: Some(metadata),
        created_at: None,
        updated_at: None,
    };
    assert_eq!(contact.metadata.unwrap()["plan"], serde_json::Value::from("pro"));
}

#[test]
fn verification_builders_and_predicates() {
    let request = SendVerificationRequest::new("+15551234567");
    assert_eq!(request.phone, "+15551234567");
    assert!(request.channel.is_none() && request.code_length.is_none());
    assert!(request.expires_in.is_none() && request.max_attempts.is_none());
    let request = request
        .channel(Channel::Whatsapp)
        .code_length(8)
        .expires_in(300)
        .app_name("Shop")
        .template_id("tpl_1");
    assert_eq!(request.channel, Some(Channel::Whatsapp));
    assert_eq!(request.code_length, Some(8));
    assert_eq!(request.expires_in, Some(300));
    assert_eq!(request.app_name.as_deref(), Some("Shop"));
    assert_eq!(request.template_id.as_deref(), Some("tpl_1"));
    assert_eq!(request.phone, "+15551234567");

    let session = CreateSessionRequest::new("https://shop.example/ok")
        .cancel_url("https://shop.example/no")
        .brand_name("Shop")
        .brand_color("#ff0000")
        .metadata(HashMap::new());
    assert_eq!(session.success_url, "https://shop.example/ok");
    assert_eq!(session.cancel_url.as_deref(), Some("https://shop.example/no"));
    assert_eq!(session.brand_name.as_deref(), Some("Shop"));
    assert_eq!(session.brand_color.as_deref(), Some("#ff0000"));
    assert_eq!(session.metadata, Some(HashMap::new()));

    let verification = |status: VerificationStatus| Verification {
        id: "v1".to_string(),
        status,
        phone: "+15551234567".to_string(),
        delivery_status: DeliveryStatus::Sent,
        attempts: 0,
        max_attempts: 3,
        channel: Channel::Sms,
        expires_at: "2025-01-01T00:00:00Z".to_string(),
        verified_at: None,
        created_at: "2025-01-01T00:00:00Z".to_string(),
        sandbox: false,
        app_name: None,
        template_id: None,
        profile_id: None,
        metadata: None,
    };
    assert!(verification(VerificationStatus::Pending).is_pending());
    assert!(!verification(VerificationStatus::Pending).is_verified());
    assert!(verification(VerificationStatus::Verified).is_verified());
    assert!(verification(VerificationStatus::Expired).is_expired());
    assert!(!verification(VerificationStatus::Failed).is_expired());
}

#[test]
fn usage_comes_from_the_first_field_that_is_there() {
    let usage = |total: i64| ApiKeyUsage {
        total_requests: total,
        successful_requests: total - 1,
        failed_requests: 1,
        last_request_at: Some("2025-01-01T00:00:00Z".to_string()),
        credits_used: 2 * total,
    };
    assert_eq!(usage_of(Some(usage(10)), Some(usage(20))).total_requests, 10);
    assert_eq!(usage_of(Some(usage(10)), None).credits_used, 20);
    let second = usage_of(None, Some(usage(20)));
    assert_eq!(second.total_requests, 20);
    assert_eq!(second.successful_requests, 19);
    assert_eq!(second.last_request_at.as_deref(), Some("2025-01-01T00:00:00Z"));
    let none = usage_of(None, None);
    assert_eq!(none.total_requests, 0);
    assert_eq!(none.successful_requests, 0);
    assert_eq!(none.failed_requests, 0);
    assert_eq!(none.last_request_at, None);
    assert_eq!(none.credits_used, 0);
}

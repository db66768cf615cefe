use crate::api::{v2_outcome, v2_url, Client};
use crate::error::{result_view, ApiError, Failure};
use crate::http::{Method, Reply, ReplyValue, Request};
use crate::json::{no_fields, set_field, Json, JsonValue};
use crate::text::glue3;
use vstd::prelude::*;

verus! {

/// The body that creates a static DNS record: an enabled A record that maps
/// the name `key` to the address `value`.
pub open spec fn dns_record_of(key: Seq<char>, value: Seq<char>) -> JsonValue {
    JsonValue::Object(
        map![
            "key"@ => JsonValue::Text(key),
            "value"@ => JsonValue::Text(value),
            "record_type"@ => JsonValue::Text("A"@),
            "enabled"@ => JsonValue::Bool(true),
        ],
    )
}

/// The URL of one static DNS record.
pub open spec fn dns_record_url(base: Seq<char>, id: Seq<char>) -> Seq<char> {
    base + "/proxy/network/v2/api/site/default/static-dns/"@ + id
}

/// What the creation of a static DNS record yields for a reply: the body as
/// it is.
pub open spec fn dns_created_outcome(reply: ReplyValue) -> Result<JsonValue, Failure> {
    reply.body("Failed to create DNS record"@, "Failed to create DNS record"@)
}

/// The body that creates a static DNS record.
pub fn dns_record(key: &str, value: &str) -> (body: Json)
    ensures
        body@ == dns_record_of(key@, value@),
{
    let mut entries = no_fields();
    set_field(&mut entries, "key", Json::text(key));
    set_field(&mut entries, "value", Json::text(value));
    set_field(&mut entries, "record_type", Json::text("A"));
    set_field(&mut entries, "enabled", Json::Bool(true));
    Json::object(entries)
}

impl Client {
    /// The request that reads the static DNS records.
    pub fn dns_records_request(&self) -> (request: Request)
        ensures
            request@ == self@.fetch(v2_url(self@.base_url, "static-dns"@)),
    {
        self.v2_request("static-dns")
    }

    /// The static DNS records, from the reply to `dns_records_request`.
    pub fn get_dns_records(&self, reply: &Reply) -> (outcome: Result<Json, ApiError>)
        ensures
            result_view(outcome) == v2_outcome("static-dns"@, reply@),
    {
        self.get_v2("static-dns", reply)
    }

    /// The request that creates a static DNS record, which maps the name
    /// `key` to the address `value`.
    pub fn create_dns_record_request(&self, key: &str, value: &str) -> (request: Request)
        ensures
            request@ == self@.submit(
                Method::Post,
                v2_url(self@.base_url, "static-dns"@),
                dns_record_of(key@, value@),
            ),
    {
        let url = glue3(self.base_url(), "/proxy/network/v2/api/site/default/", "static-dns");
        self.submit(Method::Post, url, dns_record(key, value))
    }

    /// The record created, from the reply to `create_dns_record_request`.
    pub fn create_dns_record(&self, reply: &Reply) -> (outcome: Result<Json, ApiError>)
        ensures
            result_view(outcome) == dns_created_outcome(reply@),
    {
        match reply.body("Failed to create DNS record", "Failed to create DNS record") {
            Ok(body) => Ok(body.clone()),
            Err(error) => Err(error),
        }
    }

    /// The request that deletes the static DNS record `id`.
    pub fn delete_dns_record_request(&self, id: &str) -> (request: Request)
        ensures
            request@ == self@.remove(dns_record_url(self@.base_url, id@)),
    {
        self.remove(
            glue3(self.base_url(), "/proxy/network/v2/api/site/default/static-dns/", id),
        )
    }

    /// Whether the record was deleted, from the reply to
    /// `delete_dns_record_request`.
    pub fn delete_dns_record(&self, reply: &Reply) -> (outcome: Result<(), ApiError>)
        ensures
            result_view(outcome) == reply@.accepted(
                "Failed to delete DNS record"@,
                "Failed to delete DNS record"@,
            ),
    {
        reply.accepted("Failed to delete DNS record", "Failed to delete DNS record")
    }
}

} // verus!

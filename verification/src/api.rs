use crate::error::{result_view, ApiError, Failure};
use crate::http::{Method, Reply, ReplyValue, Request, RequestValue};
use crate::json::{Json, JsonValue};
use crate::text::{glue, glue3, starts_with};
use vstd::prelude::*;

verus! {

/// A client of one controller: where it is and the key that opens it.
///
/// Neither changes once the client is made.
#[derive(Debug, PartialEq, Eq)]
pub struct Client {
    base_url: String,
    api_key: String,
}

/// The mathematical value of a `Client`.
pub struct ClientValue {
    pub base_url: Seq<char>,
    pub api_key: Seq<char>,
}

impl View for Client {
    type V = ClientValue;

    closed spec fn view(&self) -> ClientValue {
        ClientValue { base_url: self.base_url@, api_key: self.api_key@ }
    }
}

/// Whether a host names its scheme: it begins with `http://` or with
/// `https://`.
pub open spec fn has_scheme(host: Seq<char>) -> bool {
    "http://"@.is_prefix_of(host) || "https://"@.is_prefix_of(host)
}

/// The base URL for a host: the host itself where it names its scheme, else
/// the host behind `https://`.
pub open spec fn base_url_of(host: Seq<char>) -> Seq<char> {
    if has_scheme(host) {
        host
    } else {
        "https://"@ + host
    }
}

/// Every base URL names its scheme, and a host that names its scheme is its
/// own base URL.
pub proof fn lemma_base_url_has_scheme(host: Seq<char>)
    ensures
        has_scheme(base_url_of(host)),
        has_scheme(host) ==> base_url_of(host) == host,
        !has_scheme(host) ==> base_url_of(host) == "https://"@ + host,
{
    if !has_scheme(host) {
        let url = "https://"@ + host;
        assert(url.subrange(0, "https://"@.len() as int) =~= "https://"@);
    }
}

/// The URL of a REST collection.
pub open spec fn rest_url(base: Seq<char>, endpoint: Seq<char>) -> Seq<char> {
    base + "/proxy/network/api/s/default/rest/"@ + endpoint
}

/// The URL of a statistics collection.
pub open spec fn stat_url(base: Seq<char>, endpoint: Seq<char>) -> Seq<char> {
    base + "/proxy/network/api/s/default/stat/"@ + endpoint
}

/// The URL of a v2 endpoint.
pub open spec fn v2_url(base: Seq<char>, endpoint: Seq<char>) -> Seq<char> {
    base + "/proxy/network/v2/api/site/default/"@ + endpoint
}

/// The URL of the setting stored under a key.
pub open spec fn setting_url(base: Seq<char>, key: Seq<char>) -> Seq<char> {
    base + "/proxy/network/api/s/default/rest/setting/"@ + key
}

impl ClientValue {
    /// The request that reads `url`: a GET without a body.
    pub open spec fn fetch(self, url: Seq<char>) -> RequestValue {
        RequestValue { method: Method::Get, url, api_key: self.api_key, body: None }
    }

    /// The request that sends `body` to `url` by `method`.
    pub open spec fn submit(self, method: Method, url: Seq<char>, body: JsonValue) -> RequestValue {
        RequestValue { method, url, api_key: self.api_key, body: Some(body) }
    }

    /// The request that deletes `url`.
    pub open spec fn remove(self, url: Seq<char>) -> RequestValue {
        RequestValue { method: Method::Delete, url, api_key: self.api_key, body: None }
    }
}

/// What an envelope wraps: its member `data`, or the empty array where it
/// has none.
pub open spec fn envelope_data(body: JsonValue) -> JsonValue {
    match body.field("data"@) {
        Some(data) => data,
        None => JsonValue::empty_array(),
    }
}

/// The first element of an envelope's `data`, where `data` is an array that
/// has one.
pub open spec fn first_of_data(body: JsonValue) -> Option<JsonValue> {
    match body.field("data"@) {
        Some(JsonValue::Array(items)) => if items.len() > 0 {
            Some(items[0])
        } else {
            None
        },
        _ => None,
    }
}

/// What a REST or statistics fetch of `endpoint` yields for a reply: the
/// data of the envelope.
pub open spec fn list_outcome(endpoint: Seq<char>, reply: ReplyValue) -> Result<
    JsonValue,
    Failure,
> {
    match reply.body("Failed to fetch data"@, "Failed to get "@ + endpoint) {
        Ok(body) => Ok(envelope_data(body)),
        Err(failure) => Err(failure),
    }
}

/// What a v2 fetch of `endpoint` yields for a reply: the body as it is.
pub open spec fn v2_outcome(endpoint: Seq<char>, reply: ReplyValue) -> Result<
    JsonValue,
    Failure,
> {
    reply.body("Failed to fetch data"@, "Failed to get "@ + endpoint)
}

/// What a fetch of the setting `key` yields for a reply: the first element
/// of the data, and a failure where there is none.
pub open spec fn setting_outcome(key: Seq<char>, reply: ReplyValue) -> Result<
    JsonValue,
    Failure,
> {
    match reply.body("Failed to fetch setting"@, "Failed to get setting"@) {
        Ok(body) => match first_of_data(body) {
            Some(first) => Ok(first),
            None => Err(Failure::SettingNotFound { key }),
        },
        Err(failure) => Err(failure),
    }
}

/// What a write yields for a reply: the first element of the data where
/// there is one, else the whole body.
pub open spec fn written_outcome(context: Seq<char>, reply: ReplyValue) -> Result<
    JsonValue,
    Failure,
> {
    match reply.body(context, context) {
        Ok(body) => match first_of_data(body) {
            Some(first) => Ok(first),
            None => Ok(body),
        },
        Err(failure) => Err(failure),
    }
}

/// Reading is repeatable: what a fetch yields is decided by the reply, so
/// replies with the same value are read alike, whichever way they are read.
pub proof fn lemma_reading_repeats(name: Seq<char>, first: ReplyValue, second: ReplyValue)
    requires
        first == second,
    ensures
        list_outcome(name, first) == list_outcome(name, second),
        v2_outcome(name, first) == v2_outcome(name, second),
        setting_outcome(name, first) == setting_outcome(name, second),
        written_outcome(name, first) == written_outcome(name, second),
{
}

/// The document that an envelope wraps.
pub fn unwrap_data(body: &Json) -> (data: Json)
    ensures
        data@ == envelope_data(body@),
{
    match body.get("data") {
        Some(data) => data.clone(),
        None => Json::empty_array(),
    }
}

/// The first element of the array that an envelope wraps.
pub fn first_data(body: &Json) -> (first: Option<&Json>)
    ensures
        match first {
            Some(document) => first_of_data(body@) == Some(document@),
            None => first_of_data(body@) is None,
        },
{
    match body.get("data") {
        Some(data) => match data.as_array() {
            Some(items) => if items.len() > 0 {
                Some(&items[0])
            } else {
                None
            },
            None => None,
        },
        None => None,
    }
}

impl Client {
    /// A client for the controller at `host`, which opens with `api_key`.
    /// A host that names no scheme is reached over HTTPS.
    pub fn new(host: &str, api_key: &str) -> (client: Client)
        ensures
            client@.base_url == base_url_of(host@),
            client@.api_key == api_key@,
            has_scheme(client@.base_url),
    {
        proof {
            lemma_base_url_has_scheme(host@);
        }
        let base_url = if starts_with(host, "http://") || starts_with(host, "https://") {
            String::from_str(host)
        } else {
            glue("https://", host)
        };
        Client { base_url, api_key: String::from_str(api_key) }
    }

    /// The URL that every path of the controller is appended to.
    pub fn base_url(&self) -> (url: &str)
        ensures
            url@ == self@.base_url,
    {
        self.base_url.as_str()
    }

    /// The key sent with every request.
    pub fn api_key(&self) -> (key: &str)
        ensures
            key@ == self@.api_key,
    {
        self.api_key.as_str()
    }

    /// The request that reads `url`.
    pub fn fetch(&self, url: String) -> (request: Request)
        ensures
            request@ == self@.fetch(url@),
    {
        Request { method: Method::Get, url, api_key: self.api_key.clone(), body: None }
    }

    /// The request that sends `body` to `url` by `method`.
    pub fn submit(&self, method: Method, url: String, body: Json) -> (request: Request)
        ensures
            request@ == self@.submit(method, url@, body@),
    {
        Request { method, url, api_key: self.api_key.clone(), body: Some(body) }
    }

    /// The request that deletes `url`.
    pub fn remove(&self, url: String) -> (request: Request)
        ensures
            request@ == self@.remove(url@),
    {
        Request { method: Method::Delete, url, api_key: self.api_key.clone(), body: None }
    }

    /// The request that reads the REST collection `endpoint`.
    pub fn rest_request(&self, endpoint: &str) -> (request: Request)
        ensures
            request@ == self@.fetch(rest_url(self@.base_url, endpoint@)),
    {
        self.fetch(
            glue3(self.base_url.as_str(), "/proxy/network/api/s/default/rest/", endpoint),
        )
    }

    /// The request that reads the statistics collection `endpoint`.
    pub fn stat_request(&self, endpoint: &str) -> (request: Request)
        ensures
            request@ == self@.fetch(stat_url(self@.base_url, endpoint@)),
    {
        self.fetch(
            glue3(self.base_url.as_str(), "/proxy/network/api/s/default/stat/", endpoint),
        )
    }

    /// The request that reads the v2 endpoint `endpoint`.
    pub fn v2_request(&self, endpoint: &str) -> (request: Request)
        ensures
            request@ == self@.fetch(v2_url(self@.base_url, endpoint@)),
    {
        self.fetch(
            glue3(self.base_url.as_str(), "/proxy/network/v2/api/site/default/", endpoint),
        )
    }

    /// The request that reads the setting stored under `key`.
    pub fn setting_request(&self, key: &str) -> (request: Request)
        ensures
            request@ == self@.fetch(setting_url(self@.base_url, key@)),
    {
        self.fetch(
            glue3(self.base_url.as_str(), "/proxy/network/api/s/default/rest/setting/", key),
        )
    }

    /// Reads the reply to a REST fetch of `endpoint`.
    pub fn get_rest(&self, endpoint: &str, reply: &Reply) -> (outcome: Result<Json, ApiError>)
        ensures
            result_view(outcome) == list_outcome(endpoint@, reply@),
    {
        let label = glue("Failed to get ", endpoint);
        match reply.body("Failed to fetch data", label.as_str()) {
            Ok(body) => Ok(unwrap_data(body)),
            Err(error) => Err(error),
        }
    }

    /// Reads the reply to a statistics fetch of `endpoint`.
    pub fn get_stat(&self, endpoint: &str, reply: &Reply) -> (outcome: Result<Json, ApiError>)
        ensures
            result_view(outcome) == list_outcome(endpoint@, reply@),
    {
        self.get_rest(endpoint, reply)
    }

    /// Reads the reply to a v2 fetch of `endpoint`.
    pub fn get_v2(&self, endpoint: &str, reply: &Reply) -> (outcome: Result<Json, ApiError>)
        ensures
            result_view(outcome) == v2_outcome(endpoint@, reply@),
    {
        let label = glue("Failed to get ", endpoint);
        match reply.body("Failed to fetch data", label.as_str()) {
            Ok(body) => Ok(body.clone()),
            Err(error) => Err(error),
        }
    }

    /// Reads the reply to a fetch of the setting `key`.
    pub fn get_setting(&self, key: &str, reply: &Reply) -> (outcome: Result<Json, ApiError>)
        ensures
            result_view(outcome) == setting_outcome(key@, reply@),
    {
        match reply.body("Failed to fetch setting", "Failed to get setting") {
            Ok(body) => match first_data(body) {
                Some(first) => Ok(first.clone()),
                None => Err(ApiError::SettingNotFound { key: String::from_str(key) }),
            },
            Err(error) => Err(error),
        }
    }

    /// Reads the reply to a write whose failures are described by `context`.
    pub fn written(&self, context: &str, reply: &Reply) -> (outcome: Result<Json, ApiError>)
        ensures
            result_view(outcome) == written_outcome(context@, reply@),
    {
        match reply.body(context, context) {
            Ok(body) => match first_data(body) {
                Some(first) => Ok(first.clone()),
                None => Ok(body.clone()),
            },
            Err(error) => Err(error),
        }
    }
}

} // verus!

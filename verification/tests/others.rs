use unifi::api::Client;
use unifi::config::{config_dir, config_path, get_client, join, Config};
use unifi::dns::dns_record;
use unifi::error::ApiError;
use unifi::http::{Method, Reply};
use unifi::json::{clone_entries, find_entry, set_field, Json};
use unifi::text::{glue, glue3, starts_with, str_eq};

fn text(value: &str) -> Json {
    Json::Text(value.to_string())
}

fn object(entries: Vec<(&str, Json)>) -> Json {
    Json::Object(entries.into_iter().map(|(key, value)| (key.to_string(), value)).collect())
}

fn answer(status: u16, document: Json) -> Reply {
    Reply::Answered { status, text: String::new(), document: Some(document) }
}

fn client() -> Client {
    Client::new("gw", "key")
}

#[test]
fn config_path_below_the_config_directory() {
    assert_eq!(config_path(Some("/home/u/.config")), "/home/u/.config/unifi/config.json");
    assert_eq!(config_dir(Some("/home/u/.config")), "/home/u/.config/unifi");
}

#[test]
fn config_path_without_a_config_directory() {
    assert_eq!(config_path(None), "./unifi/config.json");
    assert_eq!(config_dir(None), "./unifi");
}

#[test]
fn config_path_below_a_directory_that_ends_in_a_slash() {
    assert_eq!(config_path(Some("/")), "/unifi/config.json");
    assert_eq!(config_path(Some("/etc/")), "/etc/unifi/config.json");
    assert_eq!(config_path(Some("")), "unifi/config.json");
}

#[test]
fn join_adds_one_separator() {
    assert_eq!(join("a", "b"), "a/b");
    assert_eq!(join("a/", "b"), "a/b");
    assert_eq!(join("", "b"), "b");
    assert_eq!(join("a", ""), "a/");
}

#[test]
fn get_client_needs_host_and_key() {
    let none = Config::default();
    assert_eq!(none, Config { host: None, api_key: None });
    assert_eq!(get_client(&none), Err(ApiError::NotConfigured));
    let no_key = Config { host: Some("gw".to_string()), api_key: None };
    assert_eq!(get_client(&no_key), Err(ApiError::ApiKeyNotConfigured));
    let no_host = Config { host: None, api_key: Some("k".to_string()) };
    assert_eq!(get_client(&no_host), Err(ApiError::NotConfigured));
    assert_eq!(ApiError::NotConfigured.message(), "Not configured. Run 'unifi config' first");
    assert_eq!(
        ApiError::ApiKeyNotConfigured.message(),
        "API key not configured. Run 'unifi config' first"
    );
}

#[test]
fn get_client_builds_the_client() {
    let config = Config { host: Some("192.168.2.1".to_string()), api_key: Some("k".to_string()) };
    let client = get_client(&config).unwrap();
    assert_eq!(client.base_url(), "https://192.168.2.1");
    assert_eq!(client.api_key(), "k");
    assert_eq!(client, Client::new("192.168.2.1", "k"));
}

#[test]
fn config_with_replaces_what_is_given() {
    let start = Config { host: Some("a".to_string()), api_key: Some("k".to_string()) };
    let changed = start.with(Some("b".to_string()), None);
    assert_eq!(changed, Config { host: Some("b".to_string()), api_key: Some("k".to_string()) });
    let changed = changed.with(None, Some("n".to_string()));
    assert_eq!(changed, Config { host: Some("b".to_string()), api_key: Some("n".to_string()) });
    let same = changed.with(None, None);
    assert_eq!(same, Config { host: Some("b".to_string()), api_key: Some("n".to_string()) });
    let filled = Config::default().with(Some("h".to_string()), Some("k".to_string()));
    assert_eq!(filled, Config { host: Some("h".to_string()), api_key: Some("k".to_string()) });
}

#[test]
fn dns_record_is_an_enabled_a_record() {
    let body = dns_record("nas.lan", "10.0.0.5");
    assert_eq!(
        body,
        object(vec![
            ("key", text("nas.lan")),
            ("value", text("10.0.0.5")),
            ("record_type", text("A")),
            ("enabled", Json::Bool(true)),
        ])
    );
}

#[test]
fn dns_record_requests() {
    let c = client();
    let list = c.dns_records_request();
    assert_eq!(list.method, Method::Get);
    assert_eq!(list.url, "https://gw/proxy/network/v2/api/site/default/static-dns");
    let create = c.create_dns_record_request("nas.lan", "10.0.0.5");
    assert_eq!(create.method, Method::Post);
    assert_eq!(create.url, "https://gw/proxy/network/v2/api/site/default/static-dns");
    assert_eq!(create.body, Some(dns_record("nas.lan", "10.0.0.5")));
    let delete = c.delete_dns_record_request("abc123");
    assert_eq!(delete.method, Method::Delete);
    assert_eq!(delete.url, "https://gw/proxy/network/v2/api/site/default/static-dns/abc123");
    assert_eq!(delete.body, None);
}

#[test]
fn dns_record_replies() {
    let c = client();
    let body = object(vec![("_id", text("abc123"))]);
    let reply = answer(200, object(vec![("_id", text("abc123"))]));
    assert_eq!(c.create_dns_record(&reply), Ok(body));
    assert_eq!(c.get_dns_records(&answer(200, Json::Array(vec![]))), Ok(Json::Array(vec![])));
    let refused = Reply::Answered { status: 409, text: "exists".to_string(), document: None };
    assert_eq!(
        c.create_dns_record(&refused).unwrap_err().message(),
        "Failed to create DNS record (409 Conflict): exists"
    );
    let gone = Reply::Answered { status: 404, text: "".to_string(), document: None };
    assert_eq!(
        c.delete_dns_record(&gone).unwrap_err().message(),
        "Failed to delete DNS record (404 Not Found): "
    );
    let done = Reply::Answered { status: 200, text: "".to_string(), document: None };
    assert_eq!(c.delete_dns_record(&done), Ok(()));
    let malformed = Reply::Answered { status: 200, text: "".to_string(), document: None };
    assert_eq!(c.create_dns_record(&malformed), Err(ApiError::Malformed));
}

#[test]
fn plain_lists() {
    let c = client();
    assert_eq!(
        c.networks_request().url,
        "https://gw/proxy/network/api/s/default/rest/networkconf"
    );
    assert_eq!(c.wifi_request().url, "https://gw/proxy/network/api/s/default/rest/wlanconf");
    assert_eq!(c.devices_request().url, "https://gw/proxy/network/api/s/default/stat/device");
    assert_eq!(
        c.security_settings_request().url,
        "https://gw/proxy/network/api/s/default/rest/setting/ips"
    );
    let list = answer(200, object(vec![("data", Json::Array(vec![text("x")]))]));
    assert_eq!(c.get_networks(&list), Ok(Json::Array(vec![text("x")])));
    assert_eq!(c.get_wifi(&list), Ok(Json::Array(vec![text("x")])));
    assert_eq!(c.get_devices(&list), Ok(Json::Array(vec![text("x")])));
    assert_eq!(c.get_security_settings(&list), Ok(text("x")));
    let refused = Reply::Answered { status: 502, text: "gw".to_string(), document: None };
    assert_eq!(
        c.get_networks(&refused).unwrap_err().message(),
        "Failed to get networkconf (502 Bad Gateway): gw"
    );
    assert_eq!(
        c.get_wifi(&refused).unwrap_err().message(),
        "Failed to get wlanconf (502 Bad Gateway): gw"
    );
    assert_eq!(
        c.get_devices(&refused).unwrap_err().message(),
        "Failed to get device (502 Bad Gateway): gw"
    );
    assert_eq!(
        c.get_security_settings(&refused).unwrap_err().message(),
        "Failed to get setting (502 Bad Gateway): gw"
    );
}

#[test]
fn json_get_finds_members_of_objects_only() {
    let document = object(vec![("a", text("1")), ("b", Json::Null)]);
    assert_eq!(document.get("a"), Some(&text("1")));
    assert_eq!(document.get("b"), Some(&Json::Null));
    assert_eq!(document.get("c"), None);
    assert_eq!(document.get(""), None);
    assert_eq!(Json::Array(vec![text("a")]).get("a"), None);
    assert_eq!(text("a").get("a"), None);
    assert_eq!(Json::Null.get("a"), None);
}

#[test]
fn json_later_entry_replaces_earlier() {
    let document = object(vec![("a", text("1")), ("b", text("2")), ("a", text("3"))]);
    assert_eq!(document.get("a"), Some(&text("3")));
    let entries = vec![
        ("a".to_string(), text("1")),
        ("b".to_string(), text("2")),
        ("a".to_string(), text("3")),
    ];
    assert_eq!(find_entry(&entries, "a"), Some(2));
    assert_eq!(find_entry(&entries, "b"), Some(1));
    assert_eq!(find_entry(&entries, "c"), None);
    assert_eq!(find_entry(&vec![], "a"), None);
}

#[test]
fn json_set_field_replaces_what_the_key_stood_for() {
    let mut entries = vec![("a".to_string(), text("1"))];
    set_field(&mut entries, "b", text("2"));
    set_field(&mut entries, "a", text("3"));
    let document = Json::Object(entries);
    assert_eq!(document.get("a"), Some(&text("3")));
    assert_eq!(document.get("b"), Some(&text("2")));
}

#[test]
fn json_kinds() {
    assert_eq!(Json::Array(vec![text("a")]).as_array(), Some(&vec![text("a")]));
    assert_eq!(text("a").as_array(), None);
    assert_eq!(object(vec![]).as_array(), None);
    assert_eq!(text("a").as_str(), Some("a"));
    assert_eq!(text("").as_str(), Some(""));
    assert_eq!(Json::Number("1".to_string()).as_str(), None);
    assert_eq!(Json::Null.as_str(), None);
    assert_eq!(Json::text("x"), text("x"));
    assert_eq!(Json::empty_array(), Json::Array(vec![]));
    assert_eq!(Json::array(vec![Json::Null]), Json::Array(vec![Json::Null]));
    assert_eq!(Json::object(vec![("k".to_string(), Json::Null)]), object(vec![("k", Json::Null)]));
}

#[test]
fn json_clone_is_a_deep_copy() {
    let document = object(vec![
        ("list", Json::Array(vec![Json::Null, Json::Bool(true), Json::Number("1.5".to_string())])),
        ("nested", object(vec![("text", text("x"))])),
    ]);
    assert_eq!(document.clone(), document);
    let entries = vec![("a".to_string(), Json::Array(vec![text("1")]))];
    assert_eq!(clone_entries(&entries), entries);
}

#[test]
fn text_helpers() {
    assert!(str_eq("wan", "wan"));
    assert!(!str_eq("wan", "wan "));
    assert!(!str_eq("", "a"));
    assert!(str_eq("", ""));
    assert!(starts_with("https://x", "http"));
    assert!(starts_with("http", "http"));
    assert!(starts_with("anything", ""));
    assert!(!starts_with("htt", "http"));
    assert!(!starts_with("xhttp", "http"));
    assert!(starts_with("héllo", "hé"));
    assert_eq!(glue("a", "b"), "ab");
    assert_eq!(glue3("a", "", "c"), "ac");
}

#[test]
fn json_equality_ignores_the_order_of_entries() {
    let left = object(vec![("a", text("1")), ("b", Json::Array(vec![Json::Null]))]);
    let right = object(vec![("b", Json::Array(vec![Json::Null])), ("a", text("1"))]);
    assert_eq!(left, right);
    assert_eq!(right, left);
}

#[test]
fn json_equality_ignores_replaced_entries() {
    let left = object(vec![("a", text("old")), ("a", text("new"))]);
    let right = object(vec![("a", text("new"))]);
    assert_eq!(left, right);
    assert_eq!(right, left);
    assert_ne!(left, object(vec![("a", text("old"))]));
}

#[test]
fn json_equality_tells_documents_apart() {
    assert_ne!(object(vec![("a", text("1"))]), object(vec![("a", text("2"))]));
    assert_ne!(object(vec![("a", text("1"))]), object(vec![("b", text("1"))]));
    assert_ne!(object(vec![("a", text("1"))]), object(vec![("a", text("1")), ("b", Json::Null)]));
    assert_ne!(object(vec![("a", text("1")), ("b", Json::Null)]), object(vec![("a", text("1"))]));
    assert_ne!(object(vec![]), Json::Array(vec![]));
    assert_ne!(Json::Null, Json::Bool(false));
    assert_ne!(text("1"), Json::Number("1".to_string()));
    assert_ne!(Json::Number("1".to_string()), Json::Number("1.0".to_string()));
    assert_ne!(Json::Array(vec![text("a"), text("b")]), Json::Array(vec![text("b"), text("a")]));
    assert_ne!(Json::Array(vec![text("a")]), Json::Array(vec![text("a"), text("a")]));
    assert_eq!(Json::Array(vec![]), Json::Array(vec![]));
    assert_eq!(object(vec![]), object(vec![]));
}

#[test]
fn json_equality_goes_into_nested_documents() {
    let left = object(vec![(
        "outer",
        Json::Array(vec![object(vec![("x", Json::Bool(true)), ("y", Json::Null)])]),
    )]);
    let right = object(vec![(
        "outer",
        Json::Array(vec![object(vec![("y", Json::Null), ("x", Json::Bool(true))])]),
    )]);
    assert_eq!(left, right);
    let other = object(vec![(
        "outer",
        Json::Array(vec![object(vec![("y", Json::Null), ("x", Json::Bool(false))])]),
    )]);
    assert_ne!(left, other);
}

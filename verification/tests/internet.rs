use unifi::api::Client;
use unifi::error::ApiError;
use unifi::http::Reply;
use unifi::internet::{find_wan, has_wan_purpose, DnsSettings};
use unifi::json::Json;

fn text(value: &str) -> Json {
    Json::Text(value.to_string())
}

fn object(entries: Vec<(&str, Json)>) -> Json {
    Json::Object(entries.into_iter().map(|(key, value)| (key.to_string(), value)).collect())
}

fn envelope(items: Vec<Json>) -> Json {
    object(vec![("data", Json::Array(items))])
}

fn answer(status: u16, document: Json) -> Reply {
    Reply::Answered { status, text: String::new(), document: Some(document) }
}

fn client() -> Client {
    Client::new("192.168.1.1", "secret")
}

#[test]
fn dns_settings_of_lan_and_wan() {
    let lan = object(vec![("purpose", text("lan"))]);
    let wan = object(vec![
        ("purpose", text("wan")),
        ("wan_dns1", text("1.1.1.1")),
        ("wan_dns_preference", text("")),
    ]);
    let reply = answer(200, envelope(vec![lan, wan]));
    let settings = client().get_dns_settings(&reply).unwrap();
    assert_eq!(
        settings,
        DnsSettings {
            mode: "auto".to_string(),
            dns1: Some("1.1.1.1".to_string()),
            dns2: None,
            mode_ipv6: "auto".to_string(),
            dns1_ipv6: None,
            dns2_ipv6: None,
        }
    );
}

#[test]
fn dns_settings_keep_what_is_given() {
    let wan = object(vec![
        ("purpose", text("wan")),
        ("wan_dns_preference", text("manual")),
        ("wan_dns1", text("9.9.9.9")),
        ("wan_dns2", text("149.112.112.112")),
        ("wan_ipv6_dns_preference", text("manual")),
        ("wan_ipv6_dns1", text("2620:fe::fe")),
        ("wan_ipv6_dns2", text("2620:fe::9")),
    ]);
    let settings = DnsSettings::project(&wan);
    assert_eq!(settings.mode, "manual");
    assert_eq!(settings.dns1.as_deref(), Some("9.9.9.9"));
    assert_eq!(settings.dns2.as_deref(), Some("149.112.112.112"));
    assert_eq!(settings.mode_ipv6, "manual");
    assert_eq!(settings.dns1_ipv6.as_deref(), Some("2620:fe::fe"));
    assert_eq!(settings.dns2_ipv6.as_deref(), Some("2620:fe::9"));
}

#[test]
fn empty_string_reads_as_missing() {
    let blank = object(vec![
        ("wan_dns_preference", text("")),
        ("wan_dns1", text("")),
        ("wan_dns2", text("")),
        ("wan_ipv6_dns_preference", text("")),
        ("wan_ipv6_dns1", text("")),
        ("wan_ipv6_dns2", text("")),
    ]);
    let missing = object(vec![]);
    assert_eq!(DnsSettings::project(&blank), DnsSettings::project(&missing));
    assert_eq!(DnsSettings::project(&blank).mode, "auto");
    assert_eq!(DnsSettings::project(&blank).mode_ipv6, "auto");
    assert_eq!(DnsSettings::project(&missing).dns1, None);
}

#[test]
fn a_field_that_is_no_string_reads_as_missing() {
    let odd = object(vec![
        ("wan_dns1", Json::Number("1".to_string())),
        ("wan_dns_preference", Json::Bool(true)),
    ]);
    let settings = DnsSettings::project(&odd);
    assert_eq!(settings.dns1, None);
    assert_eq!(settings.mode, "auto");
}

#[test]
fn first_wan_network_wins() {
    let first = object(vec![("purpose", text("wan")), ("name", text("WAN1"))]);
    let second = object(vec![("purpose", text("wan")), ("name", text("WAN2"))]);
    let lan = object(vec![("purpose", text("lan"))]);
    let networks = vec![lan, first, second];
    assert_eq!(find_wan(&networks), Some(1));
    let reply = answer(200, envelope(networks));
    let wan = client().get_wan_settings(&reply).unwrap();
    assert_eq!(wan.get("name"), Some(&text("WAN1")));
}

#[test]
fn no_wan_network_is_an_error() {
    let lan = object(vec![("purpose", text("lan"))]);
    assert_eq!(find_wan(&vec![lan]), None);
    let lan = object(vec![("purpose", text("lan"))]);
    let reply = answer(200, envelope(vec![lan]));
    assert_eq!(client().get_wan_settings(&reply), Err(ApiError::NoWanNetwork));
    assert_eq!(client().get_dns_settings(&reply), Err(ApiError::NoWanNetwork));
    assert_eq!(ApiError::NoWanNetwork.message(), "No WAN network found");
}

#[test]
fn an_envelope_without_a_list_holds_no_wan_network() {
    let no_data = answer(200, object(vec![]));
    assert_eq!(client().get_wan_network(&no_data), Err(ApiError::NoWanNetwork));
    let odd_data = answer(200, object(vec![("data", text("wan"))]));
    assert_eq!(client().get_wan_network(&odd_data), Err(ApiError::NoWanNetwork));
}

#[test]
fn purpose_must_be_the_string_wan() {
    assert!(has_wan_purpose(&object(vec![("purpose", text("wan"))])));
    assert!(!has_wan_purpose(&object(vec![("purpose", text("WAN"))])));
    assert!(!has_wan_purpose(&object(vec![("purpose", text("wan2"))])));
    assert!(!has_wan_purpose(&object(vec![("purpose", Json::Null)])));
    assert!(!has_wan_purpose(&object(vec![])));
    assert!(!has_wan_purpose(&text("wan")));
}

#[test]
fn wan_lookup_reports_a_refusal() {
    let reply = Reply::Answered { status: 401, text: "denied".to_string(), document: None };
    let error = client().get_wan_settings(&reply).unwrap_err();
    assert_eq!(
        error,
        ApiError::Status {
            label: "Failed to get network config".to_string(),
            status: 401,
            body: "denied".to_string(),
        }
    );
    assert_eq!(error.message(), "Failed to get network config (401 Unauthorized): denied");
}

#[test]
fn wan_request_reads_the_networks() {
    let request = client().wan_request();
    assert_eq!(request.url, "https://192.168.1.1/proxy/network/api/s/default/rest/networkconf");
    assert_eq!(request.api_key, "secret");
    assert_eq!(request.body, None);
}

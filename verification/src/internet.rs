use crate::api::{rest_url, Client};
use crate::error::{result_view, ApiError, Failure};
use crate::http::{Reply, ReplyValue, Request};
use crate::json::{values_of, Json, JsonValue};
use crate::text::{str_eq, text_view};
use vstd::prelude::*;

verus! {

/// The DNS settings of the WAN network.
///
/// A mode is "auto" where the controller names none; a server is `None`
/// where the controller names none.
#[derive(Debug, PartialEq, Eq)]
pub struct DnsSettings {
    pub mode: String,
    pub dns1: Option<String>,
    pub dns2: Option<String>,
    pub mode_ipv6: String,
    pub dns1_ipv6: Option<String>,
    pub dns2_ipv6: Option<String>,
}

/// The mathematical value of `DnsSettings`.
pub struct DnsSettingsValue {
    pub mode: Seq<char>,
    pub dns1: Option<Seq<char>>,
    pub dns2: Option<Seq<char>>,
    pub mode_ipv6: Seq<char>,
    pub dns1_ipv6: Option<Seq<char>>,
    pub dns2_ipv6: Option<Seq<char>>,
}

impl View for DnsSettings {
    type V = DnsSettingsValue;

    open spec fn view(&self) -> DnsSettingsValue {
        DnsSettingsValue {
            mode: self.mode@,
            dns1: text_view(self.dns1),
            dns2: text_view(self.dns2),
            mode_ipv6: self.mode_ipv6@,
            dns1_ipv6: text_view(self.dns1_ipv6),
            dns2_ipv6: text_view(self.dns2_ipv6),
        }
    }
}

/// Whether a network object has the purpose "wan".
pub open spec fn is_wan(network: JsonValue) -> bool {
    network.text_field("purpose"@) == Some("wan"@)
}

/// The position of the first WAN network at or after `start`.
pub open spec fn first_wan_from(networks: Seq<JsonValue>, start: int) -> Option<int>
    decreases networks.len() - start,
{
    if start < 0 || start >= networks.len() {
        None
    } else if is_wan(networks[start]) {
        Some(start)
    } else {
        first_wan_from(networks, start + 1)
    }
}

/// The position of the first WAN network of a list.
pub open spec fn first_wan(networks: Seq<JsonValue>) -> Option<int> {
    first_wan_from(networks, 0)
}

/// The WAN network that an envelope of networks holds: the first element of
/// its data with the purpose "wan".
pub open spec fn wan_of(body: JsonValue) -> Option<JsonValue> {
    match body.field("data"@) {
        Some(JsonValue::Array(networks)) => match first_wan(networks) {
            Some(i) => Some(networks[i]),
            None => None,
        },
        _ => None,
    }
}

/// What the lookup of the WAN network yields for a reply.
pub open spec fn wan_outcome(reply: ReplyValue) -> Result<JsonValue, Failure> {
    match reply.body("Failed to fetch network config"@, "Failed to get network config"@) {
        Ok(body) => match wan_of(body) {
            Some(network) => Ok(network),
            None => Err(Failure::NoWanNetwork),
        },
        Err(failure) => Err(failure),
    }
}

/// The string that a network object holds under `key`, where it holds one
/// that is not empty.
pub open spec fn setting_text(network: JsonValue, key: Seq<char>) -> Option<Seq<char>> {
    match network.text_field(key) {
        Some(chars) => if chars.len() > 0 {
            Some(chars)
        } else {
            None
        },
        None => None,
    }
}

/// A preference mode: the one given, or "auto" where none is.
pub open spec fn mode_or_auto(mode: Option<Seq<char>>) -> Seq<char> {
    match mode {
        Some(chars) => chars,
        None => "auto"@,
    }
}

/// The DNS settings that a WAN network object holds.
pub open spec fn dns_settings_of(network: JsonValue) -> DnsSettingsValue {
    DnsSettingsValue {
        mode: mode_or_auto(setting_text(network, "wan_dns_preference"@)),
        dns1: setting_text(network, "wan_dns1"@),
        dns2: setting_text(network, "wan_dns2"@),
        mode_ipv6: mode_or_auto(setting_text(network, "wan_ipv6_dns_preference"@)),
        dns1_ipv6: setting_text(network, "wan_ipv6_dns1"@),
        dns2_ipv6: setting_text(network, "wan_ipv6_dns2"@),
    }
}

/// What the fetch of the DNS settings yields for a reply.
pub open spec fn dns_outcome(reply: ReplyValue) -> Result<DnsSettingsValue, Failure> {
    match wan_outcome(reply) {
        Ok(network) => Ok(dns_settings_of(network)),
        Err(failure) => Err(failure),
    }
}

/// The first WAN network is a WAN network, and none stands before it; where
/// there is no first, no network of the list is a WAN network.
pub proof fn lemma_first_wan(networks: Seq<JsonValue>)
    ensures
        match first_wan(networks) {
            Some(i) => 0 <= i < networks.len() && is_wan(networks[i]) && forall|j: int|
                0 <= j < i ==> !is_wan(#[trigger] networks[j]),
            None => forall|j: int| 0 <= j < networks.len() ==> !is_wan(#[trigger] networks[j]),
        },
{
    lemma_first_wan_from(networks, 0);
}

/// `first_wan_from` finds the first WAN network at or after `start`.
pub proof fn lemma_first_wan_from(networks: Seq<JsonValue>, start: int)
    requires
        0 <= start,
    ensures
        match first_wan_from(networks, start) {
            Some(i) => start <= i < networks.len() && is_wan(networks[i]) && forall|j: int|
                start <= j < i ==> !is_wan(#[trigger] networks[j]),
            None => forall|j: int| start <= j < networks.len() ==> !is_wan(#[trigger] networks[j]),
        },
    decreases networks.len() - start,
{
    if start < networks.len() && !is_wan(networks[start]) {
        lemma_first_wan_from(networks, start + 1);
    }
}

/// An empty string reads as a missing field: a network object that holds
/// the empty string under a key yields the DNS settings that it yields
/// without the key. Under both a server is absent and a mode is "auto".
pub proof fn lemma_empty_is_missing(members: Map<Seq<char>, JsonValue>, key: Seq<char>)
    ensures
        dns_settings_of(JsonValue::Object(members.insert(key, JsonValue::Text(Seq::empty()))))
            == dns_settings_of(JsonValue::Object(members.remove(key))),
        setting_text(
            JsonValue::Object(members.insert(key, JsonValue::Text(Seq::empty()))),
            key,
        ) is None,
        setting_text(JsonValue::Object(members.remove(key)), key) is None,
        mode_or_auto(
            setting_text(
                JsonValue::Object(members.insert(key, JsonValue::Text(Seq::empty()))),
                key,
            ),
        ) == "auto"@,
        mode_or_auto(setting_text(JsonValue::Object(members.remove(key)), key)) == "auto"@,
{
    let blank = JsonValue::Object(members.insert(key, JsonValue::Text(Seq::empty())));
    let without = JsonValue::Object(members.remove(key));
    assert forall|other: Seq<char>| setting_text(blank, other) == setting_text(without, other) by {}
}

/// Whether a network object has the purpose "wan".
pub fn has_wan_purpose(network: &Json) -> (wan: bool)
    ensures
        wan == is_wan(network@),
{
    match network.get("purpose") {
        Some(purpose) => match purpose.as_str() {
            Some(chars) => str_eq(chars, "wan"),
            None => false,
        },
        None => false,
    }
}

/// The position of the first WAN network of a list.
pub fn find_wan(networks: &Vec<Json>) -> (found: Option<usize>)
    ensures
        match found {
            Some(i) => first_wan(values_of(networks@)) == Some(i as int) && i < networks.len(),
            None => first_wan(values_of(networks@)) is None,
        },
{
    let mut i: usize = 0;
    while i < networks.len()
        invariant
            i <= networks.len(),
            first_wan(values_of(networks@)) == first_wan_from(values_of(networks@), i as int),
        decreases networks.len() - i,
    {
        if has_wan_purpose(&networks[i]) {
            return Some(i);
        }
        i += 1;
    }
    None
}

/// The string that a network object holds under `key`, where it holds one
/// that is not empty.
pub fn read_setting(network: &Json, key: &str) -> (text: Option<String>)
    ensures
        text_view(text) == setting_text(network@, key@),
{
    match network.get(key) {
        Some(member) => match member.as_str() {
            Some(chars) => if chars.is_empty() {
                None
            } else {
                Some(String::from_str(chars))
            },
            None => None,
        },
        None => None,
    }
}

/// The preference mode that a network object holds under `key`, or "auto".
pub fn read_mode(network: &Json, key: &str) -> (mode: String)
    ensures
        mode@ == mode_or_auto(setting_text(network@, key@)),
{
    match read_setting(network, key) {
        Some(chars) => chars,
        None => String::from_str("auto"),
    }
}

impl DnsSettings {
    /// The DNS settings that a WAN network object holds.
    pub fn project(network: &Json) -> (settings: DnsSettings)
        ensures
            settings@ == dns_settings_of(network@),
    {
        DnsSettings {
            mode: read_mode(network, "wan_dns_preference"),
            dns1: read_setting(network, "wan_dns1"),
            dns2: read_setting(network, "wan_dns2"),
            mode_ipv6: read_mode(network, "wan_ipv6_dns_preference"),
            dns1_ipv6: read_setting(network, "wan_ipv6_dns1"),
            dns2_ipv6: read_setting(network, "wan_ipv6_dns2"),
        }
    }
}

impl Client {
    /// The request that reads the networks, among them the WAN network.
    pub fn wan_request(&self) -> (request: Request)
        ensures
            request@ == self@.fetch(rest_url(self@.base_url, "networkconf"@)),
    {
        self.rest_request("networkconf")
    }

    /// Picks the WAN network out of the reply to `wan_request`: the first
    /// network with the purpose "wan".
    pub fn get_wan_network(&self, reply: &Reply) -> (outcome: Result<Json, ApiError>)
        ensures
            result_view(outcome) == wan_outcome(reply@),
    {
        match reply.body("Failed to fetch network config", "Failed to get network config") {
            Ok(body) => {
                match body.get("data") {
                    Some(data) => match data.as_array() {
                        Some(networks) => match find_wan(networks) {
                            Some(i) => Ok(networks[i].clone()),
                            None => Err(ApiError::NoWanNetwork),
                        },
                        None => Err(ApiError::NoWanNetwork),
                    },
                    None => Err(ApiError::NoWanNetwork),
                }
            },
            Err(error) => Err(error),
        }
    }

    /// All settings of the WAN network, from the reply to `wan_request`.
    pub fn get_wan_settings(&self, reply: &Reply) -> (outcome: Result<Json, ApiError>)
        ensures
            result_view(outcome) == wan_outcome(reply@),
    {
        self.get_wan_network(reply)
    }

    /// The DNS settings of the WAN network, from the reply to `wan_request`.
    pub fn get_dns_settings(&self, reply: &Reply) -> (outcome: Result<DnsSettings, ApiError>)
        ensures
            result_view(outcome) == dns_outcome(reply@),
    {
        match self.get_wan_network(reply) {
            Ok(network) => Ok(DnsSettings::project(&network)),
            Err(error) => Err(error),
        }
    }
}

} // verus!

use crate::api::{list_outcome, rest_url, setting_outcome, setting_url, Client};
use crate::error::{result_view, ApiError, Failure};
use crate::http::{Reply, ReplyValue, Request};
use crate::json::{no_fields, set_field, Json, JsonValue};
use vstd::prelude::*;

verus! {

/// A list that may be missing: the list fetched, or the empty array where
/// the fetch failed.
pub open spec fn list_or_empty(outcome: Result<JsonValue, Failure>) -> JsonValue {
    match outcome {
        Ok(list) => list,
        Err(_) => JsonValue::empty_array(),
    }
}

/// The VPN servers: the WireGuard servers under `wireguard`, empty where
/// their fetch failed, and the OpenVPN setting under `openvpn`, left out
/// where its fetch failed.
pub open spec fn vpn_servers_of(wireguard: ReplyValue, openvpn: ReplyValue) -> JsonValue {
    let servers = Map::<Seq<char>, JsonValue>::empty().insert(
        "wireguard"@,
        list_or_empty(list_outcome("wg"@, wireguard)),
    );
    match setting_outcome("openvpn"@, openvpn) {
        Ok(setting) => JsonValue::Object(servers.insert("openvpn"@, setting)),
        Err(_) => JsonValue::Object(servers),
    }
}

/// The VPN clients: the list fetched, or the empty array where the fetch
/// failed.
pub open spec fn vpn_clients_of(reply: ReplyValue) -> JsonValue {
    list_or_empty(list_outcome("remotesiteipsec"@, reply))
}

/// Takes a list that may be missing: the list and `true` where the fetch
/// succeeded, the empty array and `false` where it failed.
pub fn optional_list(outcome: Result<Json, ApiError>) -> (found: (Json, bool))
    ensures
        found.0@ == list_or_empty(result_view(outcome)),
        found.1 == (outcome is Ok),
{
    match outcome {
        Ok(list) => (list, true),
        Err(_) => (Json::empty_array(), false),
    }
}

impl Client {
    /// The request that reads the Teleport VPN settings.
    pub fn vpn_teleport_request(&self) -> (request: Request)
        ensures
            request@ == self@.fetch(setting_url(self@.base_url, "teleport"@)),
    {
        self.setting_request("teleport")
    }

    /// The Teleport VPN settings, from the reply to `vpn_teleport_request`.
    pub fn get_vpn_teleport(&self, reply: &Reply) -> (outcome: Result<Json, ApiError>)
        ensures
            result_view(outcome) == setting_outcome("teleport"@, reply@),
    {
        self.get_setting("teleport", reply)
    }

    /// The request that reads the site-to-site VPN settings.
    pub fn vpn_site_to_site_request(&self) -> (request: Request)
        ensures
            request@ == self@.fetch(setting_url(self@.base_url, "magic_site_to_site_vpn"@)),
    {
        self.setting_request("magic_site_to_site_vpn")
    }

    /// The site-to-site VPN settings, from the reply to
    /// `vpn_site_to_site_request`.
    pub fn get_vpn_site_to_site(&self, reply: &Reply) -> (outcome: Result<Json, ApiError>)
        ensures
            result_view(outcome) == setting_outcome("magic_site_to_site_vpn"@, reply@),
    {
        self.get_setting("magic_site_to_site_vpn", reply)
    }

    /// The request that reads the WireGuard servers.
    pub fn wireguard_request(&self) -> (request: Request)
        ensures
            request@ == self@.fetch(rest_url(self@.base_url, "wg"@)),
    {
        self.rest_request("wg")
    }

    /// The request that reads the OpenVPN setting.
    pub fn openvpn_request(&self) -> (request: Request)
        ensures
            request@ == self@.fetch(setting_url(self@.base_url, "openvpn"@)),
    {
        self.setting_request("openvpn")
    }

    /// The VPN servers, from the replies to `wireguard_request` and to
    /// `openvpn_request`. A failure of either fetch is no error: the servers
    /// are then taken to be absent.
    pub fn get_vpn_servers(&self, wireguard: &Reply, openvpn: &Reply) -> (outcome: Result<
        Json,
        ApiError,
    >)
        ensures
            result_view(outcome) == Ok::<JsonValue, Failure>(
                vpn_servers_of(wireguard@, openvpn@),
            ),
    {
        let (servers, _) = optional_list(self.get_rest("wg", wireguard));
        let mut entries = no_fields();
        set_field(&mut entries, "wireguard", servers);
        match self.get_setting("openvpn", openvpn) {
            Ok(setting) => {
                set_field(&mut entries, "openvpn", setting);
            },
            Err(_) => {},
        }
        Ok(Json::object(entries))
    }

    /// The request that reads the VPN clients.
    pub fn vpn_clients_request(&self) -> (request: Request)
        ensures
            request@ == self@.fetch(rest_url(self@.base_url, "remotesiteipsec"@)),
    {
        self.rest_request("remotesiteipsec")
    }

    /// The VPN clients, from the reply to `vpn_clients_request`. A failure
    /// of the fetch is no error: there are then no clients.
    pub fn get_vpn_clients(&self, reply: &Reply) -> (outcome: Result<Json, ApiError>)
        ensures
            result_view(outcome) == Ok::<JsonValue, Failure>(vpn_clients_of(reply@)),
    {
        let (clients, _) = optional_list(self.get_rest("remotesiteipsec", reply));
        Ok(clients)
    }
}

} // verus!

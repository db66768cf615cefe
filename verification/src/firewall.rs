use crate::api::{list_outcome, rest_url, v2_outcome, v2_url, written_outcome, Client};
use crate::error::{result_view, ApiError};
use crate::http::{Method, Reply, Request};
use crate::json::{
    clone_entries, fields_of, lemma_fields_push, no_fields, set_field, Json, JsonValue,
};
use crate::text::glue3;
use vstd::prelude::*;

verus! {

/// The fields that every new firewall rule starts from.
pub open spec fn rule_defaults() -> Map<Seq<char>, JsonValue> {
    map![
        "src_networkconf_type"@ => JsonValue::Text("NETv4"@),
        "dst_networkconf_type"@ => JsonValue::Text("NETv4"@),
        "src_networkconf_id"@ => JsonValue::Text(""@),
        "dst_networkconf_id"@ => JsonValue::Text(""@),
        "src_mac_address"@ => JsonValue::Text(""@),
        "src_firewallgroup_ids"@ => JsonValue::empty_array(),
        "dst_firewallgroup_ids"@ => JsonValue::empty_array(),
        "icmp_typename"@ => JsonValue::Text(""@),
        "ipsec"@ => JsonValue::Text(""@),
        "logging"@ => JsonValue::Bool(false),
        "protocol_match_excepted"@ => JsonValue::Bool(false),
        "state_established"@ => JsonValue::Bool(false),
        "state_invalid"@ => JsonValue::Bool(false),
        "state_new"@ => JsonValue::Bool(false),
        "state_related"@ => JsonValue::Bool(false),
        "setting_preference"@ => JsonValue::Text("manual"@),
    ]
}

/// The fields submitted for a new rule: the defaults, with every field that
/// the caller gives laid over them.
pub open spec fn rule_fields(given: Map<Seq<char>, JsonValue>) -> Map<Seq<char>, JsonValue> {
    rule_defaults().union_prefer_right(given)
}

/// The URL of one firewall rule.
pub open spec fn rule_url(base: Seq<char>, id: Seq<char>) -> Seq<char> {
    base + "/proxy/network/api/s/default/rest/firewallrule/"@ + id
}

/// Laying `over` on `under` keeps every field of `over`, keeps the fields of
/// `under` that `over` does not name, and holds no other field.
pub proof fn lemma_overlay(under: Map<Seq<char>, JsonValue>, over: Map<Seq<char>, JsonValue>)
    ensures
        forall|key: Seq<char>| #[trigger]
            over.dom().contains(key) ==> under.union_prefer_right(over).dom().contains(key)
                && under.union_prefer_right(over)[key] == over[key],
        forall|key: Seq<char>|
            under.dom().contains(key) && !over.dom().contains(key)
                ==> under.union_prefer_right(over).dom().contains(key) && #[trigger]
                under.union_prefer_right(over)[key] == under[key],
        forall|key: Seq<char>| #[trigger]
            under.union_prefer_right(over).dom().contains(key) ==> under.dom().contains(key)
                || over.dom().contains(key),
{
}

/// The fields that every new firewall rule starts from.
pub fn default_rule_fields() -> (entries: Vec<(String, Json)>)
    ensures
        fields_of(entries@) == rule_defaults(),
{
    let mut entries = no_fields();
    set_field(&mut entries, "src_networkconf_type", Json::text("NETv4"));
    set_field(&mut entries, "dst_networkconf_type", Json::text("NETv4"));
    set_field(&mut entries, "src_networkconf_id", Json::text(""));
    set_field(&mut entries, "dst_networkconf_id", Json::text(""));
    set_field(&mut entries, "src_mac_address", Json::text(""));
    set_field(&mut entries, "src_firewallgroup_ids", Json::empty_array());
    set_field(&mut entries, "dst_firewallgroup_ids", Json::empty_array());
    set_field(&mut entries, "icmp_typename", Json::text(""));
    set_field(&mut entries, "ipsec", Json::text(""));
    set_field(&mut entries, "logging", Json::Bool(false));
    set_field(&mut entries, "protocol_match_excepted", Json::Bool(false));
    set_field(&mut entries, "state_established", Json::Bool(false));
    set_field(&mut entries, "state_invalid", Json::Bool(false));
    set_field(&mut entries, "state_new", Json::Bool(false));
    set_field(&mut entries, "state_related", Json::Bool(false));
    set_field(&mut entries, "setting_preference", Json::text("manual"));
    entries
}

/// Lays the entries of `over` on `under`: a field of `over` replaces the
/// field of `under` with the same key.
pub fn overlay(under: Vec<(String, Json)>, over: &Vec<(String, Json)>) -> (merged: Vec<
    (String, Json),
>)
    ensures
        fields_of(merged@) == fields_of(under@).union_prefer_right(fields_of(over@)),
{
    let mut merged = under;
    let mut i: usize = 0;
    while i < over.len()
        invariant
            i <= over.len(),
            fields_of(merged@) == fields_of(under@).union_prefer_right(
                fields_of(over@.subrange(0, i as int)),
            ),
        decreases over.len() - i,
    {
        let value = over[i].1.clone();
        proof {
            let seen = over@.subrange(0, i as int);
            assert(over@.subrange(0, i + 1) =~= seen.push(over@[i as int]));
            lemma_fields_push(seen, over@[i as int]);
        }
        set_field(&mut merged, over[i].0.as_str(), value);
        i += 1;
    }
    assert(over@.subrange(0, over.len() as int) =~= over@);
    merged
}

impl Client {
    /// The request that reads the firewall rules.
    pub fn firewall_rules_request(&self) -> (request: Request)
        ensures
            request@ == self@.fetch(rest_url(self@.base_url, "firewallrule"@)),
    {
        self.rest_request("firewallrule")
    }

    /// The firewall rules, from the reply to `firewall_rules_request`.
    pub fn get_firewall_rules(&self, reply: &Reply) -> (outcome: Result<Json, ApiError>)
        ensures
            result_view(outcome) == list_outcome("firewallrule"@, reply@),
    {
        self.get_rest("firewallrule", reply)
    }

    /// The request that reads the firewall groups.
    pub fn firewall_groups_request(&self) -> (request: Request)
        ensures
            request@ == self@.fetch(rest_url(self@.base_url, "firewallgroup"@)),
    {
        self.rest_request("firewallgroup")
    }

    /// The firewall groups, from the reply to `firewall_groups_request`.
    pub fn get_firewall_groups(&self, reply: &Reply) -> (outcome: Result<Json, ApiError>)
        ensures
            result_view(outcome) == list_outcome("firewallgroup"@, reply@),
    {
        self.get_rest("firewallgroup", reply)
    }

    /// The request that reads the traffic rules.
    pub fn traffic_rules_request(&self) -> (request: Request)
        ensures
            request@ == self@.fetch(v2_url(self@.base_url, "trafficrules"@)),
    {
        self.v2_request("trafficrules")
    }

    /// The traffic rules, from the reply to `traffic_rules_request`.
    pub fn get_traffic_rules(&self, reply: &Reply) -> (outcome: Result<Json, ApiError>)
        ensures
            result_view(outcome) == v2_outcome("trafficrules"@, reply@),
    {
        self.get_v2("trafficrules", reply)
    }

    /// The request that creates a firewall rule from the fields given: they
    /// are laid over the defaults, and the whole is posted.
    pub fn create_firewall_rule_request(&self, rule: &Vec<(String, Json)>) -> (request: Request)
        ensures
            request@ == self@.submit(
                Method::Post,
                rest_url(self@.base_url, "firewallrule"@),
                JsonValue::Object(rule_fields(fields_of(rule@))),
            ),
    {
        let body = overlay(default_rule_fields(), rule);
        let url = glue3(
            self.base_url(),
            "/proxy/network/api/s/default/rest/",
            "firewallrule",
        );
        self.submit(Method::Post, url, Json::object(body))
    }

    /// The rule created, from the reply to `create_firewall_rule_request`.
    pub fn create_firewall_rule(&self, reply: &Reply) -> (outcome: Result<Json, ApiError>)
        ensures
            result_view(outcome) == written_outcome("Failed to create firewall rule"@, reply@),
    {
        self.written("Failed to create firewall rule", reply)
    }

    /// The request that updates the rule `id`: the fields given are put as
    /// they are, without the defaults.
    pub fn update_firewall_rule_request(&self, id: &str, fields: &Vec<(String, Json)>) -> (request:
        Request)
        ensures
            request@ == self@.submit(
                Method::Put,
                rule_url(self@.base_url, id@),
                JsonValue::Object(fields_of(fields@)),
            ),
    {
        let body = clone_entries(fields);
        let url = glue3(
            self.base_url(),
            "/proxy/network/api/s/default/rest/firewallrule/",
            id,
        );
        self.submit(Method::Put, url, Json::object(body))
    }

    /// The rule updated, from the reply to `update_firewall_rule_request`.
    pub fn update_firewall_rule(&self, reply: &Reply) -> (outcome: Result<Json, ApiError>)
        ensures
            result_view(outcome) == written_outcome("Failed to update firewall rule"@, reply@),
    {
        self.written("Failed to update firewall rule", reply)
    }

    /// The request that deletes the rule `id`.
    pub fn delete_firewall_rule_request(&self, id: &str) -> (request: Request)
        ensures
            request@ == self@.remove(rule_url(self@.base_url, id@)),
    {
        self.remove(
            glue3(self.base_url(), "/proxy/network/api/s/default/rest/firewallrule/", id),
        )
    }

    /// Whether the rule was deleted, from the reply to
    /// `delete_firewall_rule_request`.
    pub fn delete_firewall_rule(&self, reply: &Reply) -> (outcome: Result<(), ApiError>)
        ensures
            result_view(outcome) == reply@.accepted(
                "Failed to delete firewall rule"@,
                "Failed to delete firewall rule"@,
            ),
    {
        reply.accepted("Failed to delete firewall rule", "Failed to delete firewall rule")
    }
}

} // verus!

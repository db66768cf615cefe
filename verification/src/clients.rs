use crate::api::{list_outcome, rest_url, stat_url, Client, ClientValue};
use crate::error::{result_view, ApiError, Failure};
use crate::http::{Method, Reply, ReplyValue, Request, RequestValue};
use crate::json::{no_fields, set_field, values_of, Json, JsonValue};
use crate::text::{glue, str_eq};
use vstd::prelude::*;

verus! {

/// The MAC address of a client, where it names one.
pub open spec fn mac_of(client: JsonValue) -> Option<Seq<char>> {
    client.text_field("mac"@)
}

/// The MAC addresses that the clients of a list name. What is no list names
/// none.
pub open spec fn macs_of(clients: JsonValue) -> Set<Seq<char>> {
    match clients {
        JsonValue::Array(items) => Set::new(
            |mac: Seq<char>|
                exists|i: int| 0 <= i < items.len() && mac_of(#[trigger] items[i]) == Some(mac),
        ),
        _ => Set::empty(),
    }
}

/// Whether a client counts as offline: it names no MAC address, or one that
/// is not among the online ones.
pub open spec fn is_offline(client: JsonValue, online: Set<Seq<char>>) -> bool {
    match mac_of(client) {
        Some(mac) => !online.contains(mac),
        None => true,
    }
}

/// The offline clients: the known clients, in their order, that count as
/// offline against the online ones. What is no list holds no client.
pub open spec fn offline_of(all: JsonValue, online: JsonValue) -> JsonValue {
    match all {
        JsonValue::Array(clients) => JsonValue::Array(
            clients.filter(|client: JsonValue| is_offline(client, macs_of(online))),
        ),
        _ => JsonValue::empty_array(),
    }
}

/// What the fetch of the offline clients yields for the replies on the known
/// and on the online clients: the first failure, or the offline clients.
pub open spec fn offline_outcome(all: ReplyValue, online: ReplyValue) -> Result<
    JsonValue,
    Failure,
> {
    match list_outcome("user"@, all) {
        Err(failure) => Err(failure),
        Ok(known) => match list_outcome("sta"@, online) {
            Err(failure) => Err(failure),
            Ok(present) => Ok(offline_of(known, present)),
        },
    }
}

/// What follows the reply on the known clients in the fetch of the offline
/// clients: the request for the online clients, or the failure of the first
/// fetch, after which nothing is sent.
pub open spec fn offline_next(client: ClientValue, all: ReplyValue) -> Result<
    RequestValue,
    Failure,
> {
    match list_outcome("user"@, all) {
        Err(failure) => Err(failure),
        Ok(_) => Ok(client.fetch(stat_url(client.base_url, "sta"@))),
    }
}

/// The command that makes the controller drop the client `mac`.
pub open spec fn kick_command(mac: Seq<char>) -> JsonValue {
    JsonValue::Object(
        map![
            "cmd"@ => JsonValue::Text("kick-sta"@),
            "mac"@ => JsonValue::Text(mac),
        ],
    )
}

/// The URL that takes commands on clients.
pub open spec fn command_url(base: Seq<char>) -> Seq<char> {
    base + "/proxy/network/api/s/default/cmd/stamgr"@
}

/// The strings of a list, as a set.
pub open spec fn texts(list: Seq<String>) -> Set<Seq<char>> {
    Set::new(|text: Seq<char>| exists|k: int| 0 <= k < list.len() && (#[trigger] list[k])@ == text)
}

/// The offline clients are those of the known clients that name no MAC
/// address or one that no online client names: a client of the result is a
/// known client; a known client is in the result exactly if it counts as
/// offline; and no client of the result shares a MAC address with an online
/// client.
pub proof fn lemma_offline(known: Seq<JsonValue>, online: JsonValue)
    ensures
        offline_of(JsonValue::Array(known), online) matches JsonValue::Array(offline) && {
            &&& forall|client: JsonValue|
                offline.contains(client) <==> known.contains(client) && is_offline(
                    client,
                    macs_of(online),
                )
            &&& forall|i: int|
                0 <= i < offline.len() ==> match mac_of(#[trigger] offline[i]) {
                    Some(mac) => !macs_of(online).contains(mac),
                    None => true,
                }
        },
{
    let keep = |client: JsonValue| is_offline(client, macs_of(online));
    let offline = known.filter(keep);
    assert forall|client: JsonValue|
        offline.contains(client) <==> known.contains(client) && is_offline(
            client,
            macs_of(online),
        ) by {
        if offline.contains(client) {
            known.lemma_filter_contains_rev(keep, client);
        }
    }
}

/// The MAC address of a client, where it names one.
pub fn client_mac(client: &Json) -> (mac: Option<&str>)
    ensures
        match mac {
            Some(chars) => mac_of(client@) == Some(chars@),
            None => mac_of(client@) is None,
        },
{
    match client.get("mac") {
        Some(member) => member.as_str(),
        None => None,
    }
}

/// A string appended to a list joins the set of its strings.
pub proof fn lemma_texts_push(list: Seq<String>, text: String)
    ensures
        texts(list.push(text)) == texts(list).insert(text@),
{
    let longer = list.push(text);
    assert forall|chars: Seq<char>| texts(longer).contains(chars) <==> texts(list).insert(
        text@,
    ).contains(chars) by {
        if texts(list).contains(chars) {
            let k = choose|k: int| 0 <= k < list.len() && (#[trigger] list[k])@ == chars;
            assert(longer[k]@ == chars);
        }
        if chars == text@ {
            assert(longer[list.len() as int]@ == chars);
        }
    }
}

/// A client appended to a list adds the MAC address that it names, if it
/// names one, to those that the list names.
pub proof fn lemma_macs_push(clients: Seq<JsonValue>, client: JsonValue)
    ensures
        macs_of(JsonValue::Array(clients.push(client))) == match mac_of(client) {
            Some(mac) => macs_of(JsonValue::Array(clients)).insert(mac),
            None => macs_of(JsonValue::Array(clients)),
        },
{
    let longer = clients.push(client);
    let expected = match mac_of(client) {
        Some(mac) => macs_of(JsonValue::Array(clients)).insert(mac),
        None => macs_of(JsonValue::Array(clients)),
    };
    assert forall|mac: Seq<char>| macs_of(JsonValue::Array(longer)).contains(mac)
        <==> expected.contains(mac) by {
        if macs_of(JsonValue::Array(clients)).contains(mac) {
            let i = choose|i: int|
                0 <= i < clients.len() && mac_of(#[trigger] clients[i]) == Some(mac);
            assert(mac_of(longer[i]) == Some(mac));
        }
        if mac_of(client) == Some(mac) {
            assert(mac_of(longer[clients.len() as int]) == Some(mac));
        }
    }
}

/// The MAC addresses that the clients of a list name.
pub fn collect_macs(clients: &Json) -> (macs: Vec<String>)
    ensures
        texts(macs@) == macs_of(clients@),
{
    let mut macs: Vec<String> = Vec::new();
    match clients.as_array() {
        Some(items) => {
            let ghost values = values_of(items@);
            let mut i: usize = 0;
            while i < items.len()
                invariant
                    i <= items.len(),
                    values == values_of(items@),
                    texts(macs@) == macs_of(JsonValue::Array(values.subrange(0, i as int))),
                decreases items.len() - i,
            {
                proof {
                    assert(values.subrange(0, i + 1) =~= values.subrange(0, i as int).push(
                        values[i as int],
                    ));
                    lemma_macs_push(values.subrange(0, i as int), values[i as int]);
                }
                match client_mac(&items[i]) {
                    Some(chars) => {
                        let mac = String::from_str(chars);
                        proof {
                            lemma_texts_push(macs@, mac);
                        }
                        macs.push(mac);
                    },
                    None => {},
                }
                i += 1;
            }
            assert(values.subrange(0, items.len() as int) =~= values);
        },
        None => {},
    }
    macs
}

/// Whether `text` is one of the strings of `list`.
pub fn has_text(list: &Vec<String>, text: &str) -> (found: bool)
    ensures
        found == texts(list@).contains(text@),
{
    let mut k: usize = 0;
    while k < list.len()
        invariant
            k <= list.len(),
            forall|j: int| 0 <= j < k ==> (#[trigger] list@[j])@ != text@,
        decreases list.len() - k,
    {
        if str_eq(list[k].as_str(), text) {
            return true;
        }
        k += 1;
    }
    false
}

/// The offline clients: the known clients, in their order, that name no MAC
/// address or one that no online client names.
pub fn offline_clients(all: &Json, online: &Json) -> (offline: Json)
    ensures
        offline@ == offline_of(all@, online@),
{
    let macs = collect_macs(online);
    let mut kept: Vec<Json> = Vec::new();
    match all.as_array() {
        Some(clients) => {
            let ghost values = values_of(clients@);
            let ghost keep = |client: JsonValue| is_offline(client, macs_of(online@));
            let mut i: usize = 0;
            proof {
                reveal(Seq::filter);
            }
            while i < clients.len()
                invariant
                    i <= clients.len(),
                    values == values_of(clients@),
                    keep == |client: JsonValue| is_offline(client, macs_of(online@)),
                    texts(macs@) == macs_of(online@),
                    values_of(kept@) == values.subrange(0, i as int).filter(keep),
                decreases clients.len() - i,
            {
                let offline = match client_mac(&clients[i]) {
                    Some(mac) => !has_text(&macs, mac),
                    None => true,
                };
                proof {
                    let seen = values.subrange(0, i as int);
                    assert(values.subrange(0, i + 1) =~= seen.push(values[i as int]));
                    seen.lemma_filter_push(values[i as int], keep);
                }
                if offline {
                    kept.push(clients[i].clone());
                }
                i += 1;
            }
            assert(values.subrange(0, clients.len() as int) =~= values);
        },
        None => {
            assert(values_of(kept@) =~= Seq::empty());
        },
    }
    Json::array(kept)
}

impl Client {
    /// The request that reads the clients that are online.
    pub fn clients_online_request(&self) -> (request: Request)
        ensures
            request@ == self@.fetch(stat_url(self@.base_url, "sta"@)),
    {
        self.stat_request("sta")
    }

    /// The clients that are online, from the reply to
    /// `clients_online_request`.
    pub fn get_clients_online(&self, reply: &Reply) -> (outcome: Result<Json, ApiError>)
        ensures
            result_view(outcome) == list_outcome("sta"@, reply@),
    {
        self.get_stat("sta", reply)
    }

    /// The request that reads all clients that the controller knows.
    pub fn clients_all_request(&self) -> (request: Request)
        ensures
            request@ == self@.fetch(rest_url(self@.base_url, "user"@)),
    {
        self.rest_request("user")
    }

    /// All clients that the controller knows, from the reply to
    /// `clients_all_request`.
    pub fn get_clients_all(&self, reply: &Reply) -> (outcome: Result<Json, ApiError>)
        ensures
            result_view(outcome) == list_outcome("user"@, reply@),
    {
        self.get_rest("user", reply)
    }

    /// What follows the reply to `clients_all_request` in the fetch of the
    /// offline clients: the request for the online clients, or the failure
    /// that ends the fetch.
    pub fn clients_offline_next(&self, all: &Reply) -> (next: Result<Request, ApiError>)
        ensures
            result_view(next) == offline_next(self@, all@),
    {
        match self.get_clients_all(all) {
            Err(error) => Err(error),
            Ok(_) => Ok(self.clients_online_request()),
        }
    }

    /// The offline clients, from the replies to `clients_all_request` and to
    /// `clients_online_request`. Where either fetch failed there is no
    /// result: the failure of the first comes before that of the second.
    pub fn get_clients_offline(&self, all: &Reply, online: &Reply) -> (outcome: Result<
        Json,
        ApiError,
    >)
        ensures
            result_view(outcome) == offline_outcome(all@, online@),
    {
        match self.get_clients_all(all) {
            Err(error) => Err(error),
            Ok(known) => match self.get_clients_online(online) {
                Err(error) => Err(error),
                Ok(present) => Ok(offline_clients(&known, &present)),
            },
        }
    }

    /// The request that makes the controller drop the client `mac`, which
    /// then connects anew.
    pub fn kick_client_request(&self, mac: &str) -> (request: Request)
        ensures
            request@ == self@.submit(
                Method::Post,
                command_url(self@.base_url),
                kick_command(mac@),
            ),
    {
        let mut entries = no_fields();
        set_field(&mut entries, "cmd", Json::text("kick-sta"));
        set_field(&mut entries, "mac", Json::text(mac));
        let url = glue(self.base_url(), "/proxy/network/api/s/default/cmd/stamgr");
        self.submit(Method::Post, url, Json::object(entries))
    }

    /// Whether the client was dropped, from the reply to
    /// `kick_client_request`.
    pub fn kick_client(&self, reply: &Reply) -> (outcome: Result<(), ApiError>)
        ensures
            result_view(outcome) == reply@.accepted(
                "Failed to kick client"@,
                "Failed to kick client"@,
            ),
    {
        reply.accepted("Failed to kick client", "Failed to kick client")
    }
}

} // verus!

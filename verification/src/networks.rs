use crate::api::{list_outcome, rest_url, Client};
use crate::error::{result_view, ApiError};
use crate::http::{Reply, Request};
use crate::json::Json;
use vstd::prelude::*;

verus! {

impl Client {
    /// The request that reads all networks: LANs, VLANs and VPNs.
    pub fn networks_request(&self) -> (request: Request)
        ensures
            request@ == self@.fetch(rest_url(self@.base_url, "networkconf"@)),
    {
        self.rest_request("networkconf")
    }

    /// All networks, from the reply to `networks_request`.
    pub fn get_networks(&self, reply: &Reply) -> (outcome: Result<Json, ApiError>)
        ensures
            result_view(outcome) == list_outcome("networkconf"@, reply@),
    {
        self.get_rest("networkconf", reply)
    }
}

} // verus!

use crate::api::{list_outcome, stat_url, Client};
use crate::error::{result_view, ApiError};
use crate::http::{Reply, Request};
use crate::json::Json;
use vstd::prelude::*;

verus! {

impl Client {
    /// The request that reads the devices: access points, switches, gateways.
    pub fn devices_request(&self) -> (request: Request)
        ensures
            request@ == self@.fetch(stat_url(self@.base_url, "device"@)),
    {
        self.stat_request("device")
    }

    /// The devices, from the reply to `devices_request`.
    pub fn get_devices(&self, reply: &Reply) -> (outcome: Result<Json, ApiError>)
        ensures
            result_view(outcome) == list_outcome("device"@, reply@),
    {
        self.get_stat("device", reply)
    }
}

} // verus!

use crate::api::{list_outcome, rest_url, Client};
use crate::error::{result_view, ApiError};
use crate::http::{Reply, Request};
use crate::json::Json;
use vstd::prelude::*;

verus! {

impl Client {
    /// The request that reads the WiFi configurations.
    pub fn wifi_request(&self) -> (request: Request)
        ensures
            request@ == self@.fetch(rest_url(self@.base_url, "wlanconf"@)),
    {
        self.rest_request("wlanconf")
    }

    /// The WiFi configurations, from the reply to `wifi_request`.
    pub fn get_wifi(&self, reply: &Reply) -> (outcome: Result<Json, ApiError>)
        ensures
            result_view(outcome) == list_outcome("wlanconf"@, reply@),
    {
        self.get_rest("wlanconf", reply)
    }
}

} // verus!

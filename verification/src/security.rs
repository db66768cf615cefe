use crate::api::{setting_outcome, setting_url, Client};
use crate::error::{result_view, ApiError};
use crate::http::{Reply, Request};
use crate::json::Json;
use vstd::prelude::*;

verus! {

impl Client {
    /// The request that reads the security settings: intrusion prevention,
    /// ad blocking, DNS filtering.
    pub fn security_settings_request(&self) -> (request: Request)
        ensures
            request@ == self@.fetch(setting_url(self@.base_url, "ips"@)),
    {
        self.setting_request("ips")
    }

    /// The security settings, from the reply to `security_settings_request`.
    pub fn get_security_settings(&self, reply: &Reply) -> (outcome: Result<Json, ApiError>)
        ensures
            result_view(outcome) == setting_outcome("ips"@, reply@),
    {
        self.get_setting("ips", reply)
    }
}

} // verus!

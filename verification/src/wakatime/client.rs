//! The client of the statistics service.

use vstd::prelude::*;

verus! {

/// What a request to the statistics service is made with. The connection
/// itself belongs to the caller, who sends the requests.
pub struct WakaTimeClient {
    pub api_key: String,
}

impl WakaTimeClient {
    pub fn new(api_key: String) -> (client: WakaTimeClient)
        ensures
            client.api_key@ == api_key@,
    {
        WakaTimeClient { api_key }
    }
}

} // verus!

//! Requests for the bug fields a service defines.
use vstd::prelude::*;

use crate::error::Error;
use crate::service::bugzilla::{spec_request_url, url_outcome, Bugzilla};

verus! {

/// Request for the bug fields of a service.
#[derive(Debug)]
pub struct Request {
    pub service: Bugzilla,
}

impl Request {
    /// A request for the bug fields of `service`.
    pub fn new(service: Bugzilla) -> (r: Request)
        ensures
            r.service == service,
    {
        Request { service }
    }

    /// Address of the request: `rest/field/bug` under the base URL.
    pub fn url(&self) -> (r: Result<String, Error>)
        ensures
            url_outcome(r, spec_request_url(self.service.config.spec_base(), "rest/field/bug"@, Seq::empty())),
    {
        let pairs: Vec<(String, String)> = Vec::new();
        assert(crate::web::pair_views(pairs@) =~= Seq::empty());
        self.service.request_url("rest/field/bug", pairs)
    }
}

} // verus!

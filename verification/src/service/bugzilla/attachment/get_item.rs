//! Requests for the attachments of bugs, given the bugs' IDs or aliases.
use vstd::prelude::*;

use crate::error::Error;
use crate::objects::bugzilla::views;
use crate::service::bugzilla::{
    id_pairs, no_ids_error, no_ids_message, rest_id_pairs, spec_request_url, url_outcome, Bugzilla,
};
use crate::text::{concat, owned};
use crate::web::pair_views;

verus! {

/// Request for the attachments of bugs.
#[derive(Debug)]
pub struct Request {
    pub service: Bugzilla,
    pub ids: Vec<String>,
    /// Whether the attachments' data is fetched too.
    pub data: bool,
}

/// Query pairs of the request: the bugs after the first, then the exclusion of attachment
/// data when it is not wanted.
pub open spec fn item_pairs(ids: Seq<Seq<char>>, data: bool) -> Seq<(Seq<char>, Seq<char>)> {
    rest_id_pairs("ids"@, ids) + if data {
        Seq::empty()
    } else {
        seq![("exclude_fields"@, "data"@)]
    }
}

impl Request {
    /// A request for the attachments of the bugs `ids`, with their data.
    pub fn new(service: Bugzilla, ids: Vec<String>) -> (r: Request)
        ensures
            r.service == service && r.ids == ids && r.data,
    {
        Request { service, ids, data: true }
    }

    /// Address of the request: `rest/bug/{id}/attachment` for the first bug, the others as
    /// query pairs; no bugs at all is an invalid request.
    pub fn url(&self) -> (r: Result<String, Error>)
        ensures
            self.ids.len() == 0 ==> (r matches Err(e) && e.is_invalid_request(no_ids_message())),
            self.ids.len() > 0 ==> url_outcome(r, spec_request_url(
                self.service.config.spec_base(),
                "rest/bug/"@ + self.ids@[0]@ + "/attachment"@,
                item_pairs(views(self.ids@), self.data),
            )),
    {
        if self.ids.len() == 0 {
            return Err(no_ids_error());
        }
        let a = concat("rest/bug/", self.ids[0].as_str());
        let path = concat(a.as_str(), "/attachment");
        let mut pairs = id_pairs("ids", &self.ids);
        let ghost before = pairs@;
        if !self.data {
            pairs.push((owned("exclude_fields"), owned("data")));
            assert(pair_views(pairs@) =~= pair_views(before) + seq![("exclude_fields"@, "data"@)]);
        } else {
            assert(pair_views(pairs@) =~= pair_views(before) + Seq::empty());
        }
        self.service.request_url(path.as_str(), pairs)
    }

    /// Whether the attachments' data is fetched.
    pub fn data(self, fetch: bool) -> (r: Request)
        ensures
            r.service == self.service && r.ids == self.ids && r.data == fetch,
    {
        let Request { service, ids, data: _ } = self;
        Request { service, ids, data: fetch }
    }

    /// Whether an attachment of the response is kept: a deleted attachment, one whose data
    /// is null, is skipped when data was asked for.
    pub fn keeps(&self, data_null: bool) -> (r: bool)
        ensures
            r == (!self.data || !data_null),
    {
        !self.data || !data_null
    }
}

} // verus!

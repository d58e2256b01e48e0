//! Requests for attachments, given their IDs.
use vstd::prelude::*;

use crate::error::Error;
use crate::service::bugzilla::{no_ids_error, no_ids_message, spec_request_url, url_outcome, Bugzilla};
use crate::text::{concat, nat_digits, owned, u64_to_string};
use crate::web::pair_views;

verus! {

/// Request for attachments.
#[derive(Debug)]
pub struct Request {
    pub service: Bugzilla,
    pub ids: Vec<u64>,
    /// Whether the attachments' data is fetched too.
    pub data: bool,
}

/// Query pairs of the request: the attachments after the first, then the exclusion of
/// attachment data when it is not wanted.
pub open spec fn get_pairs(ids: Seq<u64>, data: bool) -> Seq<(Seq<char>, Seq<char>)> {
    ids.drop_first().map_values(|id: u64| ("attachment_ids"@, nat_digits(id as nat))) + if data {
        Seq::empty()
    } else {
        seq![("exclude_fields"@, "data"@)]
    }
}

/// Message for an attachment that the service does not know.
pub open spec fn nonexistent_message(id: u64) -> Seq<char> {
    "nonexistent attachment: "@ + nat_digits(id as nat)
}

/// Message for an attachment that was deleted.
pub open spec fn deleted_message(id: u64) -> Seq<char> {
    "deleted attachment: "@ + nat_digits(id as nat)
}

impl Request {
    /// A request for the attachments `ids`, with their data.
    pub fn new(service: Bugzilla, ids: Vec<u64>) -> (r: Request)
        ensures
            r.service == service && r.ids == ids && r.data,
    {
        Request { service, ids, data: true }
    }

    /// Address of the request: `rest/bug/attachment/{id}` for the first attachment, the
    /// others as query pairs; no attachments at all is an invalid request.
    pub fn url(&self) -> (r: Result<String, Error>)
        ensures
            self.ids.len() == 0 ==> (r matches Err(e) && e.is_invalid_request(no_ids_message())),
            self.ids.len() > 0 ==> url_outcome(r, spec_request_url(
                self.service.config.spec_base(),
                "rest/bug/attachment/"@ + nat_digits(self.ids@[0] as nat),
                get_pairs(self.ids@, self.data),
            )),
    {
        if self.ids.len() == 0 {
            return Err(no_ids_error());
        }
        let path = concat("rest/bug/attachment/", u64_to_string(self.ids[0]).as_str());
        let mut pairs: Vec<(String, String)> = Vec::new();
        let mut i: usize = 1;
        let ghost rest = self.ids@.drop_first().map_values(|id: u64| ("attachment_ids"@, nat_digits(id as nat)));
        while i < self.ids.len()
            invariant
                1 <= i <= self.ids.len(),
                rest == self.ids@.drop_first().map_values(|id: u64| ("attachment_ids"@, nat_digits(id as nat))),
                pair_views(pairs@) == rest.subrange(0, i - 1),
            decreases self.ids.len() - i,
        {
            let ghost before = pairs@;
            pairs.push((owned("attachment_ids"), u64_to_string(self.ids[i])));
            assert(rest.subrange(0, i as int) =~= rest.subrange(0, i - 1).push(rest[i - 1]));
            assert(pair_views(pairs@) =~= pair_views(before).push(rest[i - 1]));
            i = i + 1;
        }
        assert(rest.subrange(0, self.ids@.len() - 1) =~= rest);
        let ghost before = pairs@;
        if !self.data {
            pairs.push((owned("exclude_fields"), owned("data")));
            assert(pair_views(pairs@) =~= pair_views(before) + seq![("exclude_fields"@, "data"@)]);
        } else {
            assert(pair_views(pairs@) =~= pair_views(before) + Seq::empty());
        }
        self.service.request_url(path.as_str(), pairs)
    }

    /// Whether the attachments' data is fetched.
    pub fn data(self, fetch: bool) -> (r: Request)
        ensures
            r.service == self.service && r.ids == self.ids && r.data == fetch,
    {
        let Request { service, ids, data: _ } = self;
        Request { service, ids, data: fetch }
    }

    /// Checks the response's entry for attachment `id`: a missing entry is a nonexistent
    /// attachment, and one whose data is null is a deleted attachment when data was asked
    /// for.
    pub fn check(&self, id: u64, missing: bool, data_null: bool) -> (r: Result<(), Error>)
        ensures
            missing ==> (r matches Err(e) && e.is_invalid_value(nonexistent_message(id))),
            !missing && self.data && data_null ==> (r matches Err(e) && e.is_invalid_value(
                deleted_message(id),
            )),
            !missing && !(self.data && data_null) ==> r is Ok,
    {
        if missing {
            Err(Error::InvalidValue(concat("nonexistent attachment: ", u64_to_string(id).as_str())))
        } else if self.data && data_null {
            Err(Error::InvalidValue(concat("deleted attachment: ", u64_to_string(id).as_str())))
        } else {
            Ok(())
        }
    }
}

} // verus!

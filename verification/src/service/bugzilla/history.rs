//! Bug history: requests for the change events of bugs, and which events they keep.
use vstd::prelude::*;

use crate::error::Error;
use crate::objects::bugzilla::{views, Event};
use crate::service::bugzilla::{
    id_pairs, no_ids_error, no_ids_message, rest_id_pairs, spec_request_url, url_outcome, Bugzilla,
};
use crate::text::{concat, contains, owned, str_contains};
use crate::time::TimeDeltaOrStatic;
use crate::traits::{lemma_filter_push, ToText};
use crate::web::pair_views;

verus! {

/// Bug history parameters.
#[derive(Debug)]
pub struct Parameters {
    /// Ask only for events after this time.
    pub created_after: Option<TimeDeltaOrStatic>,
    /// Keep only events whose author contains this text.
    pub creator: Option<String>,
}

impl Parameters {
    /// Parameters with nothing set.
    pub fn default() -> (r: Parameters)
        ensures
            r.created_after is None && r.creator is None,
    {
        Parameters { created_after: None, creator: None }
    }

    /// Whether an event passes the filters that are set.
    pub open spec fn spec_filter(&self, e: Event) -> bool {
        self.creator matches Some(v) ==> contains(e.who@, v@)
    }

    /// Whether an event passes the filters that are set.
    pub fn filter(&self, event: &Event) -> (r: bool)
        ensures
            r == self.spec_filter(*event),
    {
        if let Some(value) = &self.creator {
            if !str_contains(event.who.as_str(), value.as_str()) {
                return false;
            }
        }
        true
    }

    /// The events that pass the filters, in their order.
    pub fn filter_all(&self, events: Vec<Event>) -> (r: Vec<Event>)
        ensures
            r@ == events@.filter(|e: Event| self.spec_filter(e)),
    {
        let ghost all = events@;
        let ghost pred = |e: Event| self.spec_filter(e);
        let mut rest = events;
        let mut r: Vec<Event> = Vec::new();
        let mut k: usize = 0;
        let n = rest.len();
        proof {
            reveal(Seq::filter);
            assert(all.subrange(0, 0) =~= Seq::<Event>::empty());
        }
        while k < n
            invariant
                n == all.len(),
                k <= n,
                rest@ == all.subrange(k as int, n as int),
                r@ == all.subrange(0, k as int).filter(pred),
                pred == (|e: Event| self.spec_filter(e)),
            decreases n - k,
        {
            let e = rest.remove(0);
            proof {
                assert(e == all[k as int]);
                assert(all.subrange(0, k + 1) =~= all.subrange(0, k as int).push(e));
                lemma_filter_push(all.subrange(0, k as int), e, pred);
                assert(rest@ =~= all.subrange(k + 1, n as int));
            }
            if self.filter(&e) {
                r.push(e);
            }
            k = k + 1;
        }
        assert(all.subrange(0, n as int) =~= all);
        r
    }
}

/// What the event filter keeps: with a creator filter, only events whose author holds its
/// text, and every such event; with no filter, every event.
pub proof fn lemma_event_filter(p: Parameters, e: Event)
    ensures
        p.creator matches Some(v) ==> (p.spec_filter(e) <==> contains(e.who@, v@)),
        p.creator is None ==> p.spec_filter(e),
{
}

/// Request for the change events of bugs.
#[derive(Debug)]
pub struct Request {
    pub service: Bugzilla,
    pub ids: Vec<String>,
    pub params: Parameters,
}

/// Query pairs of a history request: the bugs after the first, then the time events must
/// be newer than.
pub open spec fn history_pairs(ids: Seq<Seq<char>>, p: Parameters) -> Seq<(Seq<char>, Seq<char>)> {
    rest_id_pairs("ids"@, ids) + match p.created_after {
        Some(t) => seq![("new_since"@, t.spec_value())],
        None => Seq::empty(),
    }
}

impl Request {
    /// A request for the history of the bugs `ids`, keeping every event.
    pub fn new(service: Bugzilla, ids: Vec<String>) -> (r: Request)
        ensures
            r.service == service,
            r.ids == ids,
            r.params.created_after is None && r.params.creator is None,
    {
        Request { service, ids, params: Parameters::default() }
    }

    /// Address of the request: `rest/bug/{id}/history` for the first bug, the others and
    /// the creation time as query pairs; no bugs at all is an invalid request.
    pub fn url(&self) -> (r: Result<String, Error>)
        ensures
            self.ids.len() == 0 ==> (r matches Err(e) && e.is_invalid_request(no_ids_message())),
            self.ids.len() > 0 ==> url_outcome(r, spec_request_url(
                self.service.config.spec_base(),
                "rest/bug/"@ + self.ids@[0]@ + "/history"@,
                history_pairs(views(self.ids@), self.params),
            )),
    {
        if self.ids.len() == 0 {
            return Err(no_ids_error());
        }
        let a = concat("rest/bug/", self.ids[0].as_str());
        let path = concat(a.as_str(), "/history");
        let mut pairs = id_pairs("ids", &self.ids);
        let ghost before = pairs@;
        if let Some(t) = &self.params.created_after {
            pairs.push((owned("new_since"), t.to_text()));
            assert(pair_views(pairs@) =~= pair_views(before) + seq![("new_since"@, t.spec_value())]);
        } else {
            assert(pair_views(pairs@) =~= pair_views(before) + Seq::empty());
        }
        self.service.request_url(path.as_str(), pairs)
    }

    /// Ask only for events after a time.
    pub fn created_after(&mut self, interval: TimeDeltaOrStatic)
        ensures
            final(self).service == old(self).service && final(self).ids == old(self).ids,
            final(self).params.created_after == Some(interval),
            final(self).params.creator == old(self).params.creator,
    {
        self.params.created_after = Some(interval);
    }

    /// Keep only events whose author contains a text.
    pub fn creator(&mut self, value: String)
        ensures
            final(self).service == old(self).service && final(self).ids == old(self).ids,
            final(self).params.created_after == old(self).params.created_after,
            final(self).params.creator == Some(value),
    {
        self.params.creator = Some(value);
    }
}

} // verus!

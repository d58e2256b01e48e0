//! Requests for bugs by ID, with their attachments, comments and history if wanted.
use vstd::prelude::*;

use crate::error::Error;
use crate::objects::bugzilla::{views, Attachment, Bug, Comment, Event};
use crate::service::bugzilla::{
    attachment, comment, history, id_pairs, no_ids_error, no_ids_message, rest_id_pairs,
    spec_request_url, url_outcome, Bugzilla,
};
use crate::text::{concat, owned};
use crate::web::pair_views;

verus! {

/// Request for bugs.
#[derive(Debug)]
pub struct Request {
    pub service: Bugzilla,
    pub ids: Vec<String>,
    /// Request for the bugs' attachments, without data, when they are fetched.
    pub attachments: Option<attachment::get_item::Request>,
    /// Request for the bugs' comments, when they are fetched.
    pub comments: Option<comment::Request>,
    /// Request for the bugs' history, when it is fetched.
    pub history: Option<history::Request>,
}

/// Query pairs of the request: the bugs after the first, the default fields with personal
/// tags, and the update token left out.
pub open spec fn get_pairs(ids: Seq<Seq<char>>) -> Seq<(Seq<char>, Seq<char>)> {
    rest_id_pairs("ids"@, ids) + seq![
        ("include_fields"@, "_default,tags"@),
        ("exclude_fields"@, "update_token"@),
    ]
}

/// Item `i` of a list of lists, or an empty list past its end.
pub open spec fn nth_or_empty<T>(lists: Seq<Vec<T>>, i: int) -> Seq<T> {
    if 0 <= i < lists.len() {
        lists[i]@
    } else {
        Seq::empty()
    }
}

impl Request {
    /// A request for the bugs `ids`, without attachments, comments or history.
    pub fn new(service: Bugzilla, ids: Vec<String>) -> (r: Request)
        ensures
            r.service == service && r.ids == ids,
            r.attachments is None && r.comments is None && r.history is None,
    {
        Request { service, ids, attachments: None, comments: None, history: None }
    }

    /// Address of the request: `rest/bug/{id}` for the first bug, the others, the fields
    /// to include and to exclude as query pairs; no bugs at all is an invalid request.
    pub fn url(&self) -> (r: Result<String, Error>)
        ensures
            self.ids.len() == 0 ==> (r matches Err(e) && e.is_invalid_request(no_ids_message())),
            self.ids.len() > 0 ==> url_outcome(r, spec_request_url(
                self.service.config.spec_base(),
                "rest/bug/"@ + self.ids@[0]@,
                get_pairs(views(self.ids@)),
            )),
    {
        if self.ids.len() == 0 {
            return Err(no_ids_error());
        }
        let path = concat("rest/bug/", self.ids[0].as_str());
        let mut pairs = id_pairs("ids", &self.ids);
        let ghost before = pairs@;
        pairs.push((owned("include_fields"), owned("_default,tags")));
        pairs.push((owned("exclude_fields"), owned("update_token")));
        assert(pair_views(pairs@) =~= pair_views(before) + seq![
            ("include_fields"@, "_default,tags"@),
            ("exclude_fields"@, "update_token"@),
        ]);
        self.service.request_url(path.as_str(), pairs)
    }

    /// Fetch the bugs' attachments, without their data, when `fetch` is set.
    pub fn attachments(self, fetch: bool) -> (r: Request)
        ensures
            r.service == self.service && r.ids == self.ids,
            r.comments == self.comments && r.history == self.history,
            fetch ==> (r.attachments matches Some(a) && a.service == self.service && a.ids@ == self.ids@ && !a.data),
            !fetch ==> r.attachments == self.attachments,
    {
        let Request { service, ids, attachments, comments, history } = self;
        let attachments = if fetch {
            let a = attachment::get_item::Request::new(service.duplicate(), dup_ids(&ids));
            Some(a.data(false))
        } else {
            attachments
        };
        Request { service, ids, attachments, comments, history }
    }

    /// Fetch the bugs' comments when `fetch` is set.
    pub fn comments(self, fetch: bool) -> (r: Request)
        ensures
            r.service == self.service && r.ids == self.ids,
            r.attachments == self.attachments && r.history == self.history,
            fetch ==> (r.comments matches Some(c) && c.service == self.service && c.ids@ == self.ids@
                && c.params.attachment is None && c.params.created_after is None && c.params.creator is None),
            !fetch ==> r.comments == self.comments,
    {
        let Request { service, ids, attachments, comments, history } = self;
        let comments = if fetch {
            Some(comment::Request::new(service.duplicate(), dup_ids(&ids)))
        } else {
            comments
        };
        Request { service, ids, attachments, comments, history }
    }

    /// Fetch the bugs' history when `fetch` is set.
    pub fn history(self, fetch: bool) -> (r: Request)
        ensures
            r.service == self.service && r.ids == self.ids,
            r.attachments == self.attachments && r.comments == self.comments,
            fetch ==> (r.history matches Some(h) && h.service == self.service && h.ids@ == self.ids@
                && h.params.created_after is None && h.params.creator is None),
            !fetch ==> r.history == self.history,
    {
        let Request { service, ids, attachments, comments, history } = self;
        let history = if fetch {
            Some(history::Request::new(service.duplicate(), dup_ids(&ids)))
        } else {
            history
        };
        Request { service, ids, attachments, comments, history }
    }
}

/// A copy of a list of IDs.
pub fn dup_ids(ids: &Vec<String>) -> (r: Vec<String>)
    ensures
        r@ == ids@,
{
    let mut r: Vec<String> = Vec::new();
    let mut i: usize = 0;
    while i < ids.len()
        invariant
            i <= ids.len(),
            r@ == ids@.subrange(0, i as int),
        decreases ids.len() - i,
    {
        r.push(ids[i].clone());
        assert(r@ =~= ids@.subrange(0, i + 1));
        i = i + 1;
    }
    assert(r@ =~= ids@);
    r
}

/// The bugs of a response with their attachments, comments and history filled in: the
/// `i`-th list of each goes to the `i`-th bug, a bug past the end of a list getting none.
pub fn assemble(
    bugs: Vec<Bug>,
    attachments: Vec<Vec<Attachment>>,
    comments: Vec<Vec<Comment>>,
    history: Vec<Vec<Event>>,
) -> (r: Vec<Bug>)
    ensures
        r.len() == bugs.len(),
        forall|i: int|
            0 <= i < r.len() ==> (#[trigger] r@[i]) == (Bug {
                attachments: r@[i].attachments,
                comments: r@[i].comments,
                history: r@[i].history,
                ..bugs@[i]
            }) && r@[i].attachments@ == nth_or_empty(attachments@, i) && r@[i].comments@
                == nth_or_empty(comments@, i) && r@[i].history@ == nth_or_empty(history@, i),
{
    let ghost b0 = bugs@;
    let ghost a0 = attachments@;
    let ghost c0 = comments@;
    let ghost h0 = history@;
    let mut bugs = bugs;
    let mut attachments = attachments;
    let mut comments = comments;
    let mut history = history;
    let mut r: Vec<Bug> = Vec::new();
    let n = bugs.len();
    let mut k: usize = 0;
    while k < n
        invariant
            n == b0.len(),
            k <= n,
            r.len() == k,
            bugs@ == b0.subrange(k as int, n as int),
            k <= a0.len() ==> attachments@ == a0.subrange(k as int, a0.len() as int),
            k > a0.len() ==> attachments@.len() == 0,
            k <= c0.len() ==> comments@ == c0.subrange(k as int, c0.len() as int),
            k > c0.len() ==> comments@.len() == 0,
            k <= h0.len() ==> history@ == h0.subrange(k as int, h0.len() as int),
            k > h0.len() ==> history@.len() == 0,
            forall|i: int|
                0 <= i < k ==> (#[trigger] r@[i]) == (Bug {
                    attachments: r@[i].attachments,
                    comments: r@[i].comments,
                    history: r@[i].history,
                    ..b0[i]
                }) && r@[i].attachments@ == nth_or_empty(a0, i) && r@[i].comments@ == nth_or_empty(c0, i)
                    && r@[i].history@ == nth_or_empty(h0, i),
        decreases n - k,
    {
        let mut bug = bugs.remove(0);
        let a = if attachments.len() > 0 {
            attachments.remove(0)
        } else {
            Vec::new()
        };
        let c = if comments.len() > 0 {
            comments.remove(0)
        } else {
            Vec::new()
        };
        let h = if history.len() > 0 {
            history.remove(0)
        } else {
            Vec::new()
        };
        proof {
            assert(bug == b0[k as int]);
            assert(bugs@ =~= b0.subrange(k + 1, n as int));
            if k < a0.len() {
                assert(a == a0[k as int]);
                assert(attachments@ =~= a0.subrange(k + 1, a0.len() as int));
            }
            if k < c0.len() {
                assert(c == c0[k as int]);
                assert(comments@ =~= c0.subrange(k + 1, c0.len() as int));
            }
            if k < h0.len() {
                assert(h == h0[k as int]);
                assert(history@ =~= h0.subrange(k + 1, h0.len() as int));
            }
        }
        bug.attachments = a;
        bug.comments = c;
        bug.history = h;
        r.push(bug);
        k = k + 1;
    }
    r
}

} // verus!

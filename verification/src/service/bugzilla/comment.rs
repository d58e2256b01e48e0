//! Bug comments: requests for the comments of bugs, and which comments they keep.
use vstd::prelude::*;

use crate::error::Error;
use crate::objects::bugzilla::{views, Comment};
use crate::service::bugzilla::{
    id_pairs, no_ids_error, no_ids_message, rest_id_pairs, spec_request_url, url_outcome, Bugzilla,
};
use crate::text::{concat, contains, str_contains};
use crate::time::TimeDeltaOrStatic;
use crate::traits::{lemma_filter_push, ToText};
use crate::web::pair_views;

pub mod tag;

verus! {

/// Bug comment parameters.
#[derive(Debug)]
pub struct Parameters {
    /// Keep only comments that have (`true`) or lack (`false`) a related attachment.
    pub attachment: Option<bool>,
    /// Ask only for comments made after this time.
    pub created_after: Option<TimeDeltaOrStatic>,
    /// Keep only comments whose creator contains this text.
    pub creator: Option<String>,
}

impl Parameters {
    /// Parameters with nothing set.
    pub fn default() -> (r: Parameters)
        ensures
            r.attachment is None && r.created_after is None && r.creator is None,
    {
        Parameters { attachment: None, created_after: None, creator: None }
    }

    /// Whether a comment passes the filters that are set.
    pub open spec fn spec_filter(&self, c: Comment) -> bool {
        &&& (self.attachment matches Some(a) ==> (c.attachment_id is Some) == a)
        &&& (self.creator matches Some(v) ==> contains(c.creator@, v@))
    }

    /// Whether a comment passes the filters that are set.
    pub fn filter(&self, comment: &Comment) -> (r: bool)
        ensures
            r == self.spec_filter(*comment),
    {
        if let Some(value) = self.attachment {
            if comment.attachment_id.is_some() != value {
                return false;
            }
        }
        if let Some(value) = &self.creator {
            if !str_contains(comment.creator.as_str(), value.as_str()) {
                return false;
            }
        }
        true
    }

    /// The comments that pass the filters, in their order.
    pub fn filter_all(&self, comments: Vec<Comment>) -> (r: Vec<Comment>)
        ensures
            r@ == comments@.filter(|c: Comment| self.spec_filter(c)),
    {
        let ghost all = comments@;
        let ghost pred = |c: Comment| self.spec_filter(c);
        let mut rest = comments;
        let mut r: Vec<Comment> = Vec::new();
        let mut k: usize = 0;
        let n = rest.len();
        proof {
            reveal(Seq::filter);
            assert(all.subrange(0, 0) =~= Seq::<Comment>::empty());
        }
        while k < n
            invariant
                n == all.len(),
                k <= n,
                rest@ == all.subrange(k as int, n as int),
                r@ == all.subrange(0, k as int).filter(pred),
                pred == (|c: Comment| self.spec_filter(c)),
            decreases n - k,
        {
            let c = rest.remove(0);
            proof {
                assert(c == all[k as int]);
                assert(all.subrange(0, k + 1) =~= all.subrange(0, k as int).push(c));
                lemma_filter_push(all.subrange(0, k as int), c, pred);
                assert(rest@ =~= all.subrange(k + 1, n as int));
            }
            if self.filter(&c) {
                r.push(c);
            }
            k = k + 1;
        }
        assert(all.subrange(0, n as int) =~= all);
        r
    }
}

/// What the comment filters keep: with the attachment filter set to `a`, only comments
/// that have a related attachment exactly when `a` holds; with a creator filter, only
/// comments whose creator holds its text; with no filter set, every comment; and dropping
/// a filter never keeps fewer comments.
pub proof fn lemma_comment_filter(p: Parameters, c: Comment)
    ensures
        p.attachment == Some(true) && p.spec_filter(c) ==> c.attachment_id is Some,
        p.attachment == Some(false) && p.spec_filter(c) ==> c.attachment_id is None,
        p.attachment == Some(true) && c.attachment_id is None ==> !p.spec_filter(c),
        p.attachment == Some(false) && c.attachment_id is Some ==> !p.spec_filter(c),
        p.creator matches Some(v) ==> (p.spec_filter(c) ==> contains(c.creator@, v@)),
        p.creator matches Some(v) ==> (!contains(c.creator@, v@) ==> !p.spec_filter(c)),
        p.attachment is None && p.creator is None ==> p.spec_filter(c),
        p.spec_filter(c) ==> (Parameters { attachment: None, ..p }).spec_filter(c),
        p.spec_filter(c) ==> (Parameters { creator: None, ..p }).spec_filter(c),
{
}

/// Comments of `comments` that the filters keep, in order: what `filter_all` returns.
pub open spec fn kept(p: Parameters, comments: Seq<Comment>) -> Seq<Comment> {
    comments.filter(|c: Comment| p.spec_filter(c))
}

/// Every comment that filtering keeps passes the attachment and creator filters that are
/// set, and every comment that passes them is kept.
pub proof fn lemma_comment_filter_all(p: Parameters, comments: Seq<Comment>)
    ensures
        forall|i: int|
            0 <= i < kept(p, comments).len() ==> (p.attachment matches Some(a) ==> (#[trigger] kept(
                p,
                comments,
            )[i].attachment_id is Some) == a) && (p.creator matches Some(v) ==> contains(
                kept(p, comments)[i].creator@,
                v@,
            )),
        forall|i: int|
            0 <= i < comments.len() && (p.attachment matches Some(a) ==> (comments[i].attachment_id is Some) == a)
                && (p.creator matches Some(v) ==> contains(comments[i].creator@, v@)) ==> kept(p, comments).contains(
                #[trigger] comments[i],
            ),
{
    let pred = |c: Comment| p.spec_filter(c);
    assert forall|i: int| 0 <= i < kept(p, comments).len() implies (p.attachment matches Some(a) ==> (#[trigger] kept(
        p,
        comments,
    )[i].attachment_id is Some) == a) && (p.creator matches Some(v) ==> contains(kept(p, comments)[i].creator@, v@)) by {
        comments.lemma_filter_pred(pred, i);
    }
    assert forall|i: int|
        0 <= i < comments.len() && (p.attachment matches Some(a) ==> (comments[i].attachment_id is Some) == a)
            && (p.creator matches Some(v) ==> contains(comments[i].creator@, v@)) implies kept(p, comments).contains(
        #[trigger] comments[i],
    ) by {
        comments.lemma_filter_contains(pred, i);
    }
}

/// Request for the comments of bugs.
#[derive(Debug)]
pub struct Request {
    pub service: Bugzilla,
    pub ids: Vec<String>,
    pub params: Parameters,
}

/// Query pairs of a comment request: the bugs after the first, then the time comments
/// must be newer than.
pub open spec fn comment_pairs(ids: Seq<Seq<char>>, p: Parameters) -> Seq<(Seq<char>, Seq<char>)> {
    rest_id_pairs("ids"@, ids) + match p.created_after {
        Some(t) => seq![("new_since"@, t.spec_value())],
        None => Seq::empty(),
    }
}

impl Request {
    /// A request for the comments of the bugs `ids`, keeping every comment.
    pub fn new(service: Bugzilla, ids: Vec<String>) -> (r: Request)
        ensures
            r.service == service,
            r.ids == ids,
            r.params.attachment is None && r.params.created_after is None && r.params.creator is None,
    {
        Request { service, ids, params: Parameters::default() }
    }

    /// Address of the request: `rest/bug/{id}/comment` for the first bug, the others and
    /// the creation time as query pairs; no bugs at all is an invalid request.
    pub fn url(&self) -> (r: Result<String, Error>)
        ensures
            self.ids.len() == 0 ==> (r matches Err(e) && e.is_invalid_request(no_ids_message())),
            self.ids.len() > 0 ==> url_outcome(r, spec_request_url(
                self.service.config.spec_base(),
                "rest/bug/"@ + self.ids@[0]@ + "/comment"@,
                comment_pairs(views(self.ids@), self.params),
            )),
    {
        if self.ids.len() == 0 {
            return Err(no_ids_error());
        }
        let a = concat("rest/bug/", self.ids[0].as_str());
        let path = concat(a.as_str(), "/comment");
        let mut pairs = id_pairs("ids", &self.ids);
        let ghost before = pairs@;
        if let Some(t) = &self.params.created_after {
            pairs.push((crate::text::owned("new_since"), t.to_text()));
            assert(pair_views(pairs@) =~= pair_views(before) + seq![("new_since"@, t.spec_value())]);
        } else {
            assert(pair_views(pairs@) =~= pair_views(before) + Seq::empty());
        }
        self.service.request_url(path.as_str(), pairs)
    }

    /// Keep only comments that have (`true`) or lack (`false`) a related attachment.
    pub fn attachment(self, value: bool) -> (r: Request)
        ensures
            r.service == self.service && r.ids == self.ids,
            r.params.attachment == Some(value),
            r.params.created_after == self.params.created_after,
            r.params.creator == self.params.creator,
    {
        let Request { service, ids, mut params } = self;
        params.attachment = Some(value);
        Request { service, ids, params }
    }

    /// Ask only for comments made after a time.
    pub fn created_after(self, interval: TimeDeltaOrStatic) -> (r: Request)
        ensures
            r.service == self.service && r.ids == self.ids,
            r.params.attachment == self.params.attachment,
            r.params.created_after == Some(interval),
            r.params.creator == self.params.creator,
    {
        let Request { service, ids, mut params } = self;
        params.created_after = Some(interval);
        Request { service, ids, params }
    }

    /// Keep only comments whose creator contains a text.
    pub fn creator(self, value: String) -> (r: Request)
        ensures
            r.service == self.service && r.ids == self.ids,
            r.params.attachment == self.params.attachment,
            r.params.created_after == self.params.created_after,
            r.params.creator == Some(value),
    {
        let Request { service, ids, mut params } = self;
        params.creator = Some(value);
        Request { service, ids, params }
    }
}

} // verus!

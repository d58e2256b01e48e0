//! Comment tagging: the tag changes requested, and their encoding for one comment.
use vstd::prelude::*;

use crate::error::Error;
use crate::objects::bugzilla::Comment;
use crate::objects::{changes_of_kind, grouped, SetChange, SetChanges};
use crate::service::bugzilla::Bugzilla;
use crate::text::{concat, owned, u64_to_string};
use crate::time::TimeDeltaOrStatic;
use crate::traits::{merge_option, spec_merge_option};
use crate::web::{join_url, url_join_result};

verus! {

/// Comment tagging parameters.
#[derive(Debug)]
pub struct Parameters {
    pub attachment: Option<bool>,
    pub created_after: Option<TimeDeltaOrStatic>,
    pub creator: Option<String>,
    pub tags: Option<Vec<SetChange<String>>>,
}

impl Parameters {
    /// Parameters with nothing set.
    pub open spec fn spec_is_empty(&self) -> bool {
        self.attachment is None && self.created_after is None && self.creator is None && self.tags is None
    }

    /// Parameters with nothing set.
    pub fn default() -> (r: Parameters)
        ensures
            r.spec_is_empty(),
    {
        Parameters { attachment: None, created_after: None, creator: None, tags: None }
    }

    /// Fills the parameters that are not set from `other`.
    pub fn merge(&mut self, other: Parameters)
        ensures
            final(self).attachment == spec_merge_option(old(self).attachment, other.attachment),
            final(self).created_after == spec_merge_option(old(self).created_after, other.created_after),
            final(self).creator == spec_merge_option(old(self).creator, other.creator),
            final(self).tags == spec_merge_option(old(self).tags, other.tags),
    {
        let attachment = merge_option(self.attachment, other.attachment);
        let created_after = merge_option(self.created_after.take(), other.created_after);
        let creator = merge_option(self.creator.take(), other.creator);
        let tags = merge_option(self.tags.take(), other.tags);
        *self = Parameters { attachment, created_after, creator, tags };
    }
}

/// Tags to add to and remove from one comment.
#[derive(Debug)]
pub struct RequestParameters {
    pub comment_id: u64,
    pub add: Option<Vec<String>>,
    pub remove: Option<Vec<String>>,
}

/// Texts of a list of strings.
pub open spec fn views(v: Seq<String>) -> Seq<Seq<char>> {
    v.map_values(|x: String| x@)
}

/// Texts of the values of changes.
pub open spec fn change_views(cs: Seq<SetChange<String>>) -> Seq<SetChange<Seq<char>>> {
    cs.map_values(|c: SetChange<String>| match c {
        SetChange::Add(v) => SetChange::Add(v@),
        SetChange::Remove(v) => SetChange::Remove(v@),
        SetChange::Assign(v) => SetChange::Assign(v@),
    })
}

proof fn lemma_changes_of_kind_views(cs: Seq<SetChange<String>>, kind: int)
    ensures
        views(changes_of_kind(cs, kind)) == changes_of_kind(change_views(cs), kind),
    decreases cs.len(),
{
    if cs.len() > 0 {
        lemma_changes_of_kind_views(cs.drop_last(), kind);
        assert(change_views(cs).drop_last() =~= change_views(cs.drop_last()));
        assert(views(changes_of_kind(cs, kind)) =~= changes_of_kind(change_views(cs), kind));
    }
}

fn dup_changes(cs: &Vec<SetChange<String>>) -> (r: Vec<SetChange<String>>)
    ensures
        change_views(r@) == change_views(cs@),
{
    let mut r: Vec<SetChange<String>> = Vec::new();
    let mut i: usize = 0;
    while i < cs.len()
        invariant
            i <= cs@.len(),
            change_views(r@) == change_views(cs@.subrange(0, i as int)),
        decreases cs.len() - i,
    {
        let c = match &cs[i] {
            SetChange::Add(v) => SetChange::Add(v.clone()),
            SetChange::Remove(v) => SetChange::Remove(v.clone()),
            SetChange::Assign(v) => SetChange::Assign(v.clone()),
        };
        let ghost before = r@;
        r.push(c);
        assert(change_views(r@) =~= change_views(before).push(change_views(cs@)[i as int]));
        assert(change_views(cs@.subrange(0, i + 1)) =~= change_views(cs@.subrange(0, i as int)).push(
            change_views(cs@)[i as int],
        ));
        i = i + 1;
    }
    assert(cs@.subrange(0, cs@.len() as int) =~= cs@);
    r
}

fn dup_strings(v: &Vec<String>) -> (r: Vec<String>)
    ensures
        views(r@) == views(v@),
{
    let mut r: Vec<String> = Vec::new();
    let mut i: usize = 0;
    while i < v.len()
        invariant
            i <= v@.len(),
            views(r@) == views(v@.subrange(0, i as int)),
        decreases v.len() - i,
    {
        let ghost before = r@;
        r.push(v[i].clone());
        assert(views(r@) =~= views(before).push(v@[i as int]@));
        assert(v@.subrange(0, i + 1) =~= v@.subrange(0, i as int).push(v@[i as int]));
        i = i + 1;
    }
    assert(v@.subrange(0, v@.len() as int) =~= v@);
    r
}

/// Request tagging the comments of bugs.
#[derive(Debug)]
pub struct Request {
    pub service: Bugzilla,
    pub ids: Vec<String>,
    pub params: Parameters,
}

impl Request {
    /// A tagging request for the comments of the given bugs, with no parameters set.
    pub fn new(service: Bugzilla, ids: Vec<String>) -> (r: Request)
        ensures
            r.service == service,
            r.ids == ids,
            r.params.spec_is_empty(),
    {
        Request { service, ids, params: Parameters::default() }
    }

    /// Tag only comments that have (`true`) or lack (`false`) a related attachment.
    pub fn attachment(&mut self, value: bool)
        ensures
            final(self).service == old(self).service && final(self).ids == old(self).ids,
            final(self).params == (Parameters { attachment: Some(value), ..old(self).params }),
    {
        self.params.attachment = Some(value);
    }

    /// Tag only comments made after a time.
    pub fn created_after(&mut self, interval: TimeDeltaOrStatic)
        ensures
            final(self).service == old(self).service && final(self).ids == old(self).ids,
            final(self).params == (Parameters { created_after: Some(interval), ..old(self).params }),
    {
        self.params.created_after = Some(interval);
    }

    /// Tag only comments whose creator contains a text.
    pub fn creator(&mut self, value: String)
        ensures
            final(self).service == old(self).service && final(self).ids == old(self).ids,
            final(self).params == (Parameters { creator: Some(value), ..old(self).params }),
    {
        self.params.creator = Some(value);
    }

    /// Sets the tag changes.
    pub fn tags(&mut self, values: Vec<SetChange<String>>)
        ensures
            final(self).params.tags == Some(values),
            final(self).ids == old(self).ids,
    {
        self.params.tags = Some(values);
    }

    /// Removes every tag when `value` is set: an empty list of changes.
    pub fn untag(&mut self, value: bool)
        ensures
            value ==> (final(self).params.tags matches Some(t) && t@.len() == 0),
            !value ==> final(self).params.tags == old(self).params.tags,
            final(self).ids == old(self).ids,
    {
        if value {
            self.params.tags = Some(Vec::new());
        }
    }

    /// Checks the request can be sent: it needs bugs, and tags (an empty list untags).
    pub fn check(&self) -> (r: Result<(), Error>)
        ensures
            self.ids@.len() == 0 ==> (r matches Err(e) && e.is_invalid_request("no IDs specified"@)),
            self.ids@.len() > 0 && self.params.tags is None ==> (r matches Err(e) && e.is_invalid_request(
                "no tags specified"@,
            )),
            self.ids@.len() > 0 && self.params.tags is Some ==> r is Ok,
    {
        if self.ids.len() == 0 {
            return Err(Error::InvalidRequest(owned("no IDs specified")));
        }
        if self.params.tags.is_none() {
            return Err(Error::InvalidRequest(owned("no tags specified")));
        }
        Ok(())
    }

    /// Address the tags of a comment are changed at.
    pub fn url(&self, comment_id: u64) -> (r: Result<String, Error>)
        ensures
            match url_join_result(
                self.service.config.spec_base(),
                "rest/bug/comment/"@ + crate::text::nat_digits(comment_id as nat) + "/tags"@,
            ) {
                Ok(u) => r matches Ok(x) && x@ == u,
                Err(m) => r matches Err(Error::InvalidUrl(x)) && x@ == m,
            },
    {
        let a = concat("rest/bug/comment/", u64_to_string(comment_id).as_str());
        let path = concat(a.as_str(), "/tags");
        match join_url(self.service.config.base(), path.as_str()) {
            Ok(u) => Ok(u),
            Err(m) => Err(Error::InvalidUrl(m)),
        }
    }

    /// Tag changes for one comment: a list that sets tags replaces all the comment's tags,
    /// other lists add and remove tags; no parameter at all is an empty-parameters error.
    pub fn encode(&self, comment: &Comment) -> (r: Result<RequestParameters, Error>)
        requires
            self.params.spec_is_empty() || self.params.tags is Some,
        ensures
            self.params.spec_is_empty() ==> (r matches Err(e) && e is EmptyParams),
            !self.params.spec_is_empty() ==> (r matches Ok(x) && x.comment_id == comment.id && {
                let cs = change_views(self.params.tags->0@);
                let set = changes_of_kind(cs, 2);
                if set.len() > 0 || (changes_of_kind(cs, 0).len() == 0 && changes_of_kind(cs, 1).len() == 0) {
                    (x.add matches Some(a) && views(a@) == set) && (x.remove matches Some(d) && views(d@)
                        == views(comment.tags@))
                } else {
                    (x.add matches Some(a) && views(a@) == changes_of_kind(cs, 0)) && (x.remove matches Some(
                        d,
                    ) && views(d@) == changes_of_kind(cs, 1))
                }
            }),
    {
        if self.params.attachment.is_none() && self.params.created_after.is_none() && self.params.creator.is_none()
            && self.params.tags.is_none() {
            return Err(Error::EmptyParams);
        }
        let tags = match &self.params.tags {
            Some(t) => dup_changes(t),
            None => Vec::new(),
        };
        let ghost tv = tags@;
        let changes = SetChanges::from_changes(tags);
        proof {
            lemma_changes_of_kind_views(tv, 0);
            lemma_changes_of_kind_views(tv, 1);
            lemma_changes_of_kind_views(tv, 2);
        }
        match changes.set {
            Some(set) => Ok(RequestParameters {
                comment_id: comment.id,
                add: Some(set),
                remove: Some(dup_strings(&comment.tags)),
            }),
            None => Ok(RequestParameters { comment_id: comment.id, add: changes.add, remove: changes.remove }),
        }
    }
}

} // verus!

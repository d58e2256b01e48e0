//! Attachment searches: parameters, the bug search that finds candidate bugs, and which
//! of their attachments are kept.
use vstd::prelude::*;

use crate::args::ExistsOrValues;
use crate::objects::bugzilla::Attachment;
use crate::objects::RangeOrValue;
use crate::service::bugzilla::search::{self as bug_search, Match};
use crate::service::bugzilla::Bugzilla;
use crate::time::TimeDeltaOrStatic;
use crate::traits::{lemma_filter_push, merge_option, spec_merge_option};

verus! {

/// Attachment search parameters.
#[derive(Debug)]
pub struct Parameters {
    pub creator: Option<Vec<Vec<Match>>>,
    pub description: Option<Vec<Vec<Match>>>,
    pub filename: Option<Vec<Vec<Match>>>,
    pub ids: Option<Vec<ExistsOrValues<RangeOrValue<i64>>>>,
    pub mime: Option<Vec<Vec<Match>>>,
    pub size: Option<RangeOrValue<u64>>,
    pub created: Option<RangeOrValue<TimeDeltaOrStatic>>,
    pub updated: Option<RangeOrValue<TimeDeltaOrStatic>>,
    pub is_obsolete: Option<bool>,
    pub is_patch: Option<bool>,
    pub is_private: Option<bool>,
}

impl Parameters {
    /// Parameters with nothing set.
    pub open spec fn spec_is_empty(&self) -> bool {
        &&& self.creator is None && self.description is None && self.filename is None
        &&& self.ids is None && self.mime is None && self.size is None
        &&& self.created is None && self.updated is None
        &&& self.is_obsolete is None && self.is_patch is None && self.is_private is None
    }

    /// Parameters with nothing set.
    pub fn default() -> (r: Parameters)
        ensures
            r.spec_is_empty(),
    {
        Parameters {
            creator: None,
            description: None,
            filename: None,
            ids: None,
            mime: None,
            size: None,
            created: None,
            updated: None,
            is_obsolete: None,
            is_patch: None,
            is_private: None,
        }
    }

    /// Parameters set in `self`, with those it lacks taken from `other`.
    pub open spec fn spec_merged(self, other: Parameters) -> Parameters {
        Parameters {
            creator: spec_merge_option(self.creator, other.creator),
            description: spec_merge_option(self.description, other.description),
            filename: spec_merge_option(self.filename, other.filename),
            ids: spec_merge_option(self.ids, other.ids),
            mime: spec_merge_option(self.mime, other.mime),
            size: spec_merge_option(self.size, other.size),
            created: spec_merge_option(self.created, other.created),
            updated: spec_merge_option(self.updated, other.updated),
            is_obsolete: spec_merge_option(self.is_obsolete, other.is_obsolete),
            is_patch: spec_merge_option(self.is_patch, other.is_patch),
            is_private: spec_merge_option(self.is_private, other.is_private),
        }
    }

    /// Fills the parameters that are not set from `other`.
    pub fn merge(&mut self, other: Parameters)
        ensures
            *final(self) == old(self).spec_merged(other),
    {
        let creator = merge_option(self.creator.take(), other.creator);
        let description = merge_option(self.description.take(), other.description);
        let filename = merge_option(self.filename.take(), other.filename);
        let ids = merge_option(self.ids.take(), other.ids);
        let mime = merge_option(self.mime.take(), other.mime);
        let size = merge_option(self.size.take(), other.size);
        let created = merge_option(self.created.take(), other.created);
        let updated = merge_option(self.updated.take(), other.updated);
        let is_obsolete = merge_option(self.is_obsolete, other.is_obsolete);
        let is_patch = merge_option(self.is_patch, other.is_patch);
        let is_private = merge_option(self.is_private, other.is_private);
        *self = Parameters {
            creator,
            description,
            filename,
            ids,
            mime,
            size,
            created,
            updated,
            is_obsolete,
            is_patch,
            is_private,
        };
    }

    /// Whether an attachment's size matches the size condition, when there is one.
    pub open spec fn spec_matches(&self, a: Attachment) -> bool {
        self.size matches Some(s) ==> s.spec_matches(&a.size)
    }

    /// Whether an attachment's size matches the size condition, when there is one.
    pub fn matches(&self, attachment: &Attachment) -> (r: bool)
        ensures
            r == self.spec_matches(*attachment),
    {
        match &self.size {
            Some(s) => s.matches(&attachment.size),
            None => true,
        }
    }

    /// On sizes, an attachment passes a size condition exactly as its number reads: a
    /// single size only when equal, `>n` only when larger than `n`, `<n` only when smaller,
    /// a range `a..b` only from `a` up to below `b`; with no size condition, always.
    pub proof fn lemma_size_filter(&self, a: Attachment)
        ensures
            self.size is None ==> self.spec_matches(a),
            self.size matches Some(RangeOrValue::Value(n)) ==> (self.spec_matches(a) <==> a.size == n),
            self.size matches Some(RangeOrValue::RangeOp(crate::objects::RangeOp::Greater(n))) ==> (self.spec_matches(a) <==> a.size > n),
            self.size matches Some(RangeOrValue::RangeOp(crate::objects::RangeOp::GreaterOrEqual(n))) ==> (self.spec_matches(a) <==> a.size >= n),
            self.size matches Some(RangeOrValue::RangeOp(crate::objects::RangeOp::Less(n))) ==> (self.spec_matches(a) <==> a.size < n),
            self.size matches Some(RangeOrValue::RangeOp(crate::objects::RangeOp::LessOrEqual(n))) ==> (self.spec_matches(a) <==> a.size <= n),
            self.size matches Some(RangeOrValue::Range(crate::objects::Range::Range(lo, hi))) ==> (self.spec_matches(a) <==> lo <= a.size < hi),
    {
    }

    /// The attachments whose size matches, in their order.
    pub fn filter_all(&self, attachments: Vec<Attachment>) -> (r: Vec<Attachment>)
        ensures
            r@ == attachments@.filter(|a: Attachment| self.spec_matches(a)),
    {
        let ghost all = attachments@;
        let ghost pred = |a: Attachment| self.spec_matches(a);
        let mut rest = attachments;
        let mut r: Vec<Attachment> = Vec::new();
        let mut k: usize = 0;
        let n = rest.len();
        proof {
            reveal(Seq::filter);
            assert(all.subrange(0, 0) =~= Seq::<Attachment>::empty());
        }
        while k < n
            invariant
                n == all.len(),
                k <= n,
                rest@ == all.subrange(k as int, n as int),
                r@ == all.subrange(0, k as int).filter(pred),
                pred == (|a: Attachment| self.spec_matches(a)),
            decreases n - k,
        {
            let a = rest.remove(0);
            proof {
                assert(a == all[k as int]);
                assert(all.subrange(0, k + 1) =~= all.subrange(0, k as int).push(a));
                lemma_filter_push(all.subrange(0, k as int), a, pred);
                assert(rest@ =~= all.subrange(k + 1, n as int));
            }
            if self.matches(&a) {
                r.push(a);
            }
            k = k + 1;
        }
        assert(all.subrange(0, n as int) =~= all);
        r
    }

    /// Bug search parameters that find the bugs with candidate attachments: the
    /// description, file name, MIME type, flags and times of attachments, and the IDs; the
    /// others are left unset.
    pub fn bug_search(self) -> (r: bug_search::Parameters)
        ensures
            r.attachment_description == self.description,
            r.attachment_filename == self.filename,
            r.attachment_mime == self.mime,
            r.ids == self.ids,
            r.created == self.created,
            r.updated == self.updated,
            r.attachment_is_obsolete == self.is_obsolete,
            r.attachment_is_patch == self.is_patch,
            r.attachment_is_private == self.is_private,
            (bug_search::Parameters {
                attachment_description: None,
                attachment_filename: None,
                attachment_mime: None,
                ids: None,
                created: None,
                updated: None,
                attachment_is_obsolete: None,
                attachment_is_patch: None,
                attachment_is_private: None,
                ..r
            }).spec_is_empty(),
    {
        let mut r = bug_search::Parameters::default();
        r.attachment_description = self.description;
        r.attachment_filename = self.filename;
        r.attachment_mime = self.mime;
        r.ids = self.ids;
        r.created = self.created;
        r.updated = self.updated;
        r.attachment_is_obsolete = self.is_obsolete;
        r.attachment_is_patch = self.is_patch;
        r.attachment_is_private = self.is_private;
        r
    }
}

/// Attachment search request.
#[derive(Debug)]
pub struct Request {
    pub service: Bugzilla,
    pub params: Parameters,
}

impl Request {
    /// A search on a service, with no parameters set.
    pub fn new(service: Bugzilla) -> (r: Request)
        ensures
            r.service == service && r.params.spec_is_empty(),
    {
        Request { service, params: Parameters::default() }
    }
}

} // verus!

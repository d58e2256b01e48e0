//! Attachment updates: the changes requested, and their encoding.
use vstd::prelude::*;

use crate::error::Error;
use crate::objects::bugzilla::Flag;
use crate::service::bugzilla::{no_ids_error, no_ids_message, spec_request_url, url_outcome, Bugzilla};
use crate::text::{concat, nat_digits, u64_to_string};

verus! {

/// Attachment update parameters.
#[derive(Debug)]
pub struct Parameters {
    /// Comment related to the attachment.
    pub comment: Option<String>,
    /// Attachment description.
    pub description: Option<String>,
    /// Attachment flags.
    pub flags: Option<Vec<Flag>>,
    /// MIME type of the attachment.
    pub mime_type: Option<String>,
    /// Attachment file name.
    pub name: Option<String>,
    /// Attachment is obsolete.
    pub obsolete: Option<bool>,
    /// Attachment is a patch file.
    pub patch: Option<bool>,
    /// Attachment is private.
    pub private: Option<bool>,
}

impl Parameters {
    /// Whether no parameter is set.
    pub open spec fn spec_is_empty(&self) -> bool {
        &&& self.comment is None
        &&& self.description is None
        &&& self.flags is None
        &&& self.mime_type is None
        &&& self.name is None
        &&& self.obsolete is None
        &&& self.patch is None
        &&& self.private is None
    }

    /// Parameters with nothing set.
    pub fn default() -> (r: Parameters)
        ensures
            r.spec_is_empty(),
    {
        Parameters {
            comment: None,
            description: None,
            flags: None,
            mime_type: None,
            name: None,
            obsolete: None,
            patch: None,
            private: None,
        }
    }

    /// Whether no parameter is set.
    pub fn is_empty(&self) -> (r: bool)
        ensures
            r == self.spec_is_empty(),
    {
        self.comment.is_none() && self.description.is_none() && self.flags.is_none()
            && self.mime_type.is_none() && self.name.is_none() && self.obsolete.is_none()
            && self.patch.is_none() && self.private.is_none()
    }
}

/// Attachment update parameters in the form the service takes them.
#[derive(Debug)]
pub struct RequestParameters {
    pub ids: Vec<u64>,
    pub file_name: Option<String>,
    pub summary: Option<String>,
    pub comment: Option<String>,
    pub content_type: Option<String>,
    pub is_patch: Option<bool>,
    pub is_private: Option<bool>,
    pub is_obsolete: Option<bool>,
    pub flags: Option<Vec<Flag>>,
}

/// Request that updates attachments.
#[derive(Debug)]
pub struct Request {
    pub service: Bugzilla,
    pub ids: Vec<u64>,
    pub params: Parameters,
}

impl Request {
    /// A request that updates the attachments `ids`, with no change set.
    pub fn new(service: Bugzilla, ids: Vec<u64>) -> (r: Request)
        ensures
            r.service == service && r.ids == ids && r.params.spec_is_empty(),
    {
        Request { service, ids, params: Parameters::default() }
    }

    /// Address of the request: `rest/bug/attachment/{id}` for the first attachment; no
    /// attachments at all is an invalid request.
    pub fn url(&self) -> (r: Result<String, Error>)
        ensures
            self.ids.len() == 0 ==> (r matches Err(e) && e.is_invalid_request(no_ids_message())),
            self.ids.len() > 0 ==> url_outcome(r, spec_request_url(
                self.service.config.spec_base(),
                "rest/bug/attachment/"@ + nat_digits(self.ids@[0] as nat),
                Seq::empty(),
            )),
    {
        if self.ids.len() == 0 {
            return Err(no_ids_error());
        }
        let path = concat("rest/bug/attachment/", u64_to_string(self.ids[0]).as_str());
        let pairs: Vec<(String, String)> = Vec::new();
        assert(crate::web::pair_views(pairs@) =~= Seq::empty());
        self.service.request_url(path.as_str(), pairs)
    }

    /// The update as the service takes it: the attachment IDs with each parameter under
    /// its field name; no parameter at all is an empty-parameters error.
    pub fn encode(self) -> (r: Result<RequestParameters, Error>)
        ensures
            self.params.spec_is_empty() ==> (r matches Err(e) && e is EmptyParams),
            !self.params.spec_is_empty() ==> (r matches Ok(p) && p.ids == self.ids
                && p.file_name == self.params.name && p.summary == self.params.description
                && p.comment == self.params.comment && p.content_type == self.params.mime_type
                && p.is_patch == self.params.patch && p.is_private == self.params.private
                && p.is_obsolete == self.params.obsolete && p.flags == self.params.flags),
    {
        if self.params.is_empty() {
            return Err(Error::EmptyParams);
        }
        let Request { service: _, ids, params } = self;
        Ok(RequestParameters {
            ids,
            file_name: params.name,
            summary: params.description,
            comment: params.comment,
            content_type: params.mime_type,
            is_patch: params.patch,
            is_private: params.private,
            is_obsolete: params.obsolete,
            flags: params.flags,
        })
    }
}

} // verus!

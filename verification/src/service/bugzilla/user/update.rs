//! User updates: the changes requested, and their encoding.
use vstd::prelude::*;

use crate::error::Error;
use crate::numbers::{parse_u64, spec_parse_unsigned};
use crate::objects::bugzilla::views;
use crate::service::bugzilla::{no_ids_error, no_ids_message, spec_request_url, url_outcome, Bugzilla};
use crate::text::concat;

verus! {

/// User update parameters.
#[derive(Debug)]
pub struct Parameters {
    /// User's real name.
    pub name: Option<String>,
    /// User's email address.
    pub email: Option<String>,
    /// User's password.
    pub password: Option<String>,
    /// Enable or disable sending bug-related email.
    pub email_enabled: Option<bool>,
    /// Disable user account with reason.
    pub disable: Option<String>,
}

impl Parameters {
    /// Whether no parameter is set.
    pub open spec fn spec_is_empty(&self) -> bool {
        self.name is None && self.email is None && self.password is None && self.email_enabled is None
            && self.disable is None
    }

    /// Parameters with nothing set.
    pub fn default() -> (r: Parameters)
        ensures
            r.spec_is_empty(),
    {
        Parameters { name: None, email: None, password: None, email_enabled: None, disable: None }
    }
}

/// User update parameters in the form the service takes them.
#[derive(Debug)]
pub struct RequestParameters {
    /// Users given by ID.
    pub ids: Vec<u64>,
    /// Users given by login name.
    pub names: Vec<String>,
    pub full_name: Option<String>,
    pub email: Option<String>,
    pub password: Option<String>,
    pub email_enabled: Option<bool>,
    pub login_denied_text: Option<String>,
}

/// IDs among the users, in order: those that parse as unsigned integers.
pub open spec fn numeric_ids(ids: Seq<Seq<char>>) -> Seq<u64>
    decreases ids.len(),
{
    if ids.len() == 0 {
        Seq::empty()
    } else {
        let prev = numeric_ids(ids.drop_last());
        match spec_parse_unsigned(ids.last(), u64::MAX as int) {
            Ok(n) => prev.push(n as u64),
            Err(_) => prev,
        }
    }
}

/// Login names among the users, in order: those that do not parse as unsigned integers.
pub open spec fn login_names(ids: Seq<Seq<char>>) -> Seq<Seq<char>>
    decreases ids.len(),
{
    if ids.len() == 0 {
        Seq::empty()
    } else {
        let prev = login_names(ids.drop_last());
        match spec_parse_unsigned(ids.last(), u64::MAX as int) {
            Ok(_) => prev,
            Err(_) => prev.push(ids.last()),
        }
    }
}

/// Every user given to an update is sent either by ID or by login name, never both and
/// never neither.
pub proof fn lemma_users_partitioned(ids: Seq<Seq<char>>)
    ensures
        numeric_ids(ids).len() + login_names(ids).len() == ids.len(),
    decreases ids.len(),
{
    if ids.len() > 0 {
        lemma_users_partitioned(ids.drop_last());
    }
}

/// Request that updates users.
#[derive(Debug)]
pub struct Request {
    pub service: Bugzilla,
    pub ids: Vec<String>,
    pub params: Parameters,
}

impl Request {
    /// A request that updates the users `ids`, with no change set.
    pub fn new(service: Bugzilla, ids: Vec<String>) -> (r: Request)
        ensures
            r.service == service && r.ids == ids && r.params.spec_is_empty(),
    {
        Request { service, ids, params: Parameters::default() }
    }

    /// Address of the request: `rest/user/{id}` for the first user; no users at all is an
    /// invalid request.
    pub fn url(&self) -> (r: Result<String, Error>)
        ensures
            self.ids.len() == 0 ==> (r matches Err(e) && e.is_invalid_request(no_ids_message())),
            self.ids.len() > 0 ==> url_outcome(r, spec_request_url(
                self.service.config.spec_base(),
                "rest/user/"@ + self.ids@[0]@,
                Seq::empty(),
            )),
    {
        if self.ids.len() == 0 {
            return Err(no_ids_error());
        }
        let path = concat("rest/user/", self.ids[0].as_str());
        let pairs: Vec<(String, String)> = Vec::new();
        assert(crate::web::pair_views(pairs@) =~= Seq::empty());
        self.service.request_url(path.as_str(), pairs)
    }

    /// The update as the service takes it: users split into IDs and login names, and each
    /// parameter under its field name; no parameter at all is an empty-parameters error.
    pub fn encode(self) -> (r: Result<RequestParameters, Error>)
        ensures
            self.params.spec_is_empty() ==> (r matches Err(e) && e is EmptyParams),
            !self.params.spec_is_empty() ==> (r matches Ok(p) && p.ids@ == numeric_ids(views(self.ids@))
                && views(p.names@) == login_names(views(self.ids@)) && p.full_name == self.params.name
                && p.email == self.params.email && p.password == self.params.password
                && p.email_enabled == self.params.email_enabled
                && p.login_denied_text == self.params.disable),
    {
        let p = &self.params;
        if p.name.is_none() && p.email.is_none() && p.password.is_none() && p.email_enabled.is_none()
            && p.disable.is_none() {
            return Err(Error::EmptyParams);
        }
        let ghost all = views(self.ids@);
        let mut ids: Vec<u64> = Vec::new();
        let mut names: Vec<String> = Vec::new();
        let mut i: usize = 0;
        while i < self.ids.len()
            invariant
                i <= self.ids.len(),
                all == views(self.ids@),
                ids@ == numeric_ids(all.subrange(0, i as int)),
                views(names@) == login_names(all.subrange(0, i as int)),
            decreases self.ids.len() - i,
        {
            let ghost before = views(names@);
            proof {
                assert(all.subrange(0, i + 1).drop_last() =~= all.subrange(0, i as int));
                assert(all[i as int] == self.ids@[i as int]@);
            }
            match parse_u64(self.ids[i].as_str()) {
                Ok(n) => ids.push(n),
                Err(_) => {
                    names.push(self.ids[i].clone());
                    assert(views(names@) =~= before.push(all[i as int]));
                },
            }
            i = i + 1;
        }
        assert(all.subrange(0, all.len() as int) =~= all);
        let Request { service: _, ids: _, params } = self;
        Ok(RequestParameters {
            ids,
            names,
            full_name: params.name,
            email: params.email,
            password: params.password,
            email_enabled: params.email_enabled,
            login_denied_text: params.disable,
        })
    }
}

} // verus!

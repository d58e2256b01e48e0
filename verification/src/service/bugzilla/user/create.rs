//! User creation requests.
use vstd::prelude::*;

use crate::error::Error;
use crate::service::bugzilla::{spec_request_url, url_outcome, Bugzilla};
use crate::text::owned;

verus! {

/// Request that creates user accounts, one per email address.
#[derive(Debug)]
pub struct Request {
    pub service: Bugzilla,
    pub emails: Vec<String>,
    pub name: Option<String>,
    pub password: Option<String>,
}

/// Parameters of the creation of one user.
#[derive(Debug)]
pub struct RequestUser {
    pub email: String,
    pub name: Option<String>,
    pub password: Option<String>,
}

/// Message of a creation request given no email addresses.
pub open spec fn no_emails_message() -> Seq<char> {
    "no emails specified"@
}

impl Request {
    /// A request that creates users for `emails`, with no name or password set.
    pub fn new(service: Bugzilla, emails: Vec<String>) -> (r: Request)
        ensures
            r.service == service && r.emails == emails && r.name is None && r.password is None,
    {
        Request { service, emails, name: None, password: None }
    }

    /// Address of the request: `rest/user` under the base URL.
    pub fn url(&self) -> (r: Result<String, Error>)
        ensures
            url_outcome(r, spec_request_url(self.service.config.spec_base(), "rest/user"@, Seq::empty())),
    {
        let pairs: Vec<(String, String)> = Vec::new();
        assert(crate::web::pair_views(pairs@) =~= Seq::empty());
        self.service.request_url("rest/user", pairs)
    }

    /// Set the user name.
    pub fn name(self, value: Option<String>) -> (r: Request)
        ensures
            r.service == self.service && r.emails == self.emails && r.name == value
                && r.password == self.password,
    {
        let Request { service, emails, name: _, password } = self;
        Request { service, emails, name: value, password }
    }

    /// Set the user password.
    pub fn password(self, value: Option<String>) -> (r: Request)
        ensures
            r.service == self.service && r.emails == self.emails && r.name == self.name
                && r.password == value,
    {
        let Request { service, emails, name, password: _ } = self;
        Request { service, emails, name, password: value }
    }

    /// Parameters of the creation of the user with address `email`.
    pub fn params(&self, email: &str) -> (r: RequestUser)
        ensures
            r.email@ == email@,
            r.name matches Some(n) ==> self.name matches Some(m) && n@ == m@,
            r.name is None <==> self.name is None,
            r.password matches Some(p) ==> self.password matches Some(q) && p@ == q@,
            r.password is None <==> self.password is None,
    {
        let name = match &self.name {
            Some(n) => Some(n.clone()),
            None => None,
        };
        let password = match &self.password {
            Some(p) => Some(p.clone()),
            None => None,
        };
        RequestUser { email: owned(email), name, password }
    }

    /// Parameters of every user to create, in the order of the addresses; no addresses at
    /// all is an invalid request.
    pub fn users(&self) -> (r: Result<Vec<RequestUser>, Error>)
        ensures
            self.emails.len() == 0 ==> (r matches Err(e) && e.is_invalid_request(no_emails_message())),
            self.emails.len() > 0 ==> (r matches Ok(v) && v.len() == self.emails.len() && forall|i: int|
                0 <= i < v.len() ==> {
                    &&& (#[trigger] v@[i]).email@ == self.emails@[i]@
                    &&& (v@[i].name is None <==> self.name is None)
                    &&& (v@[i].name matches Some(n) ==> self.name matches Some(m) && n@ == m@)
                    &&& (v@[i].password is None <==> self.password is None)
                    &&& (v@[i].password matches Some(p) ==> self.password matches Some(q) && p@ == q@)
                }),
    {
        if self.emails.len() == 0 {
            return Err(Error::InvalidRequest(owned("no emails specified")));
        }
        let mut v: Vec<RequestUser> = Vec::new();
        let mut i: usize = 0;
        while i < self.emails.len()
            invariant
                i <= self.emails.len(),
                v.len() == i,
                forall|j: int|
                    0 <= j < i ==> {
                        &&& (#[trigger] v@[j]).email@ == self.emails@[j]@
                        &&& (v@[j].name is None <==> self.name is None)
                        &&& (v@[j].name matches Some(n) ==> self.name matches Some(m) && n@ == m@)
                        &&& (v@[j].password is None <==> self.password is None)
                        &&& (v@[j].password matches Some(p) ==> self.password matches Some(q) && p@
                            == q@)
                    },
            decreases self.emails.len() - i,
        {
            let u = self.params(self.emails[i].as_str());
            v.push(u);
            i = i + 1;
        }
        Ok(v)
    }
}

} // verus!

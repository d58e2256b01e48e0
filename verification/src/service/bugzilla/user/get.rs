//! User lookup requests.
use vstd::prelude::*;

use crate::error::Error;
use crate::numbers::{parse_u64, spec_parse_unsigned};
use crate::objects::bugzilla::views;
use crate::service::bugzilla::{no_ids_error, no_ids_message, spec_request_url, url_outcome, Bugzilla};
use crate::text::{contains, owned, str_contains};
use crate::web::pair_views;

verus! {

/// Request that looks users up.
#[derive(Debug)]
pub struct Request {
    pub service: Bugzilla,
    /// Users given by ID, login name, or a text their names match.
    pub ids: Vec<String>,
    /// Groups the users must be in, given by ID or name.
    pub groups: Vec<String>,
    /// Whether disabled users are included.
    pub disabled: Option<bool>,
}

/// Whether a text is a user or group ID: an unsigned integer that fits in 64 bits.
pub open spec fn is_numeric(s: Seq<char>) -> bool {
    spec_parse_unsigned(s, u64::MAX as int) is Ok
}

/// Query key of a user given as `id`: an ID, a login name (it holds `@`), or else a text
/// to match.
pub open spec fn user_kind(id: Seq<char>) -> Seq<char> {
    if is_numeric(id) {
        "ids"@
    } else if contains(id, "@"@) {
        "names"@
    } else {
        "match"@
    }
}

/// Query key of a group given as `g`: an ID or a name.
pub open spec fn group_kind(g: Seq<char>) -> Seq<char> {
    if is_numeric(g) {
        "group_ids"@
    } else {
        "groups"@
    }
}

/// Text of a boolean.
pub open spec fn bool_text(b: bool) -> Seq<char> {
    if b {
        "true"@
    } else {
        "false"@
    }
}

/// Query pairs of a lookup: each user under its kind, each group under its kind, then
/// whether disabled users are included.
pub open spec fn user_get_pairs(ids: Seq<Seq<char>>, groups: Seq<Seq<char>>, disabled: Option<bool>) -> Seq<(Seq<char>, Seq<char>)> {
    ids.map_values(|id: Seq<char>| (user_kind(id), id)) + groups.map_values(|g: Seq<char>| (group_kind(g), g))
        + match disabled {
        Some(b) => seq![("include_disabled"@, bool_text(b))],
        None => Seq::empty(),
    }
}

fn numeric(s: &str) -> (r: bool)
    ensures
        r == is_numeric(s@),
{
    parse_u64(s).is_ok()
}

impl Request {
    /// A lookup of the users `ids`, in any group, excluding nothing.
    pub fn new(service: Bugzilla, ids: Vec<String>) -> (r: Request)
        ensures
            r.service == service && r.ids == ids && r.groups@.len() == 0 && r.disabled is None,
    {
        Request { service, ids, groups: Vec::new(), disabled: None }
    }

    /// Address of the lookup: `rest/user` with users, groups and the disabled flag as query
    /// pairs; no users at all is an invalid request.
    pub fn url(&self) -> (r: Result<String, Error>)
        ensures
            self.ids.len() == 0 ==> (r matches Err(e) && e.is_invalid_request(no_ids_message())),
            self.ids.len() > 0 ==> url_outcome(r, spec_request_url(
                self.service.config.spec_base(),
                "rest/user"@,
                user_get_pairs(views(self.ids@), views(self.groups@), self.disabled),
            )),
    {
        if self.ids.len() == 0 {
            return Err(no_ids_error());
        }
        let ghost ids = views(self.ids@);
        let ghost groups = views(self.groups@);
        let mut pairs: Vec<(String, String)> = Vec::new();
        let mut i: usize = 0;
        while i < self.ids.len()
            invariant
                i <= self.ids.len(),
                ids == views(self.ids@),
                pair_views(pairs@) == ids.subrange(0, i as int).map_values(|id: Seq<char>| (user_kind(id), id)),
            decreases self.ids.len() - i,
        {
            let id = &self.ids[i];
            let kind = if numeric(id.as_str()) {
                owned("ids")
            } else if str_contains(id.as_str(), "@") {
                owned("names")
            } else {
                owned("match")
            };
            let ghost before = pairs@;
            pairs.push((kind, id.clone()));
            proof {
                assert(ids[i as int] == id@);
                assert(ids.subrange(0, i + 1) =~= ids.subrange(0, i as int).push(ids[i as int]));
                assert(pair_views(pairs@) =~= pair_views(before).push((user_kind(id@), id@)));
                assert(pair_views(pairs@) =~= ids.subrange(0, i + 1).map_values(|id: Seq<char>| (user_kind(id), id)));
            }
            i = i + 1;
        }
        assert(ids.subrange(0, ids.len() as int) =~= ids);
        let ghost first = pair_views(pairs@);
        let mut j: usize = 0;
        while j < self.groups.len()
            invariant
                j <= self.groups.len(),
                groups == views(self.groups@),
                pair_views(pairs@) == first + groups.subrange(0, j as int).map_values(|g: Seq<char>| (group_kind(g), g)),
            decreases self.groups.len() - j,
        {
            let g = &self.groups[j];
            let kind = if numeric(g.as_str()) {
                owned("group_ids")
            } else {
                owned("groups")
            };
            let ghost before = pairs@;
            pairs.push((kind, g.clone()));
            proof {
                assert(groups[j as int] == g@);
                assert(groups.subrange(0, j + 1) =~= groups.subrange(0, j as int).push(groups[j as int]));
                assert(pair_views(pairs@) =~= pair_views(before).push((group_kind(g@), g@)));
                assert(pair_views(pairs@) =~= first + groups.subrange(0, j + 1).map_values(|g: Seq<char>| (group_kind(g), g)));
            }
            j = j + 1;
        }
        assert(groups.subrange(0, groups.len() as int) =~= groups);
        let ghost second = pair_views(pairs@);
        if let Some(b) = self.disabled {
            let text = if b {
                owned("true")
            } else {
                owned("false")
            };
            pairs.push((owned("include_disabled"), text));
            assert(pair_views(pairs@) =~= second + seq![("include_disabled"@, bool_text(b))]);
        } else {
            assert(pair_views(pairs@) =~= second + Seq::empty());
        }
        self.service.request_url("rest/user", pairs)
    }

    /// Groups the users must be in.
    pub fn groups(self, values: Vec<String>) -> (r: Request)
        ensures
            r.service == self.service && r.ids == self.ids && r.groups == values && r.disabled == self.disabled,
    {
        let Request { service, ids, groups: _, disabled } = self;
        Request { service, ids, groups: values, disabled }
    }

    /// Whether disabled users are included.
    pub fn disabled(self, value: bool) -> (r: Request)
        ensures
            r.service == self.service && r.ids == self.ids && r.groups == self.groups && r.disabled == Some(value),
    {
        let Request { service, ids, groups, disabled: _ } = self;
        Request { service, ids, groups, disabled: Some(value) }
    }
}

} // verus!

//! Bug creation: parameters, and their encoding with defaults for required fields.
use vstd::prelude::*;

use crate::error::Error;
use crate::objects::bugzilla::{Bug, Flag};
use crate::service::bugzilla::{spec_user_alias, Bugzilla};
use crate::text::{concat, join, owned, seq_join};
use crate::traits::{merge_option, spec_merge_option};

verus! {

/// Bug creation parameters.
#[derive(Debug)]
pub struct Parameters {
    pub alias: Option<Vec<String>>,
    pub assignee: Option<String>,
    pub blocks: Option<Vec<String>>,
    pub cc: Option<Vec<String>>,
    pub component: Option<String>,
    pub depends: Option<Vec<String>>,
    pub description: Option<String>,
    pub flags: Option<Vec<Flag>>,
    pub groups: Option<Vec<String>>,
    pub keywords: Option<Vec<String>>,
    pub os: Option<String>,
    pub platform: Option<String>,
    pub priority: Option<String>,
    pub product: Option<String>,
    pub qa: Option<String>,
    pub resolution: Option<String>,
    pub see_also: Option<Vec<String>>,
    pub severity: Option<String>,
    pub status: Option<String>,
    pub summary: Option<String>,
    pub target: Option<String>,
    pub url: Option<String>,
    pub version: Option<String>,
    pub whiteboard: Option<String>,
    pub custom_fields: Option<Vec<(String, String)>>,
}

impl Parameters {
    /// Parameters with nothing set.
    pub open spec fn spec_is_empty(&self) -> bool {
        self.alias is None && self.assignee is None && self.blocks is None && self.cc is None && self.component is None && self.depends is None && self.description is None && self.flags is None && self.groups is None && self.keywords is None && self.os is None && self.platform is None && self.priority is None && self.product is None && self.qa is None && self.resolution is None && self.see_also is None && self.severity is None && self.status is None && self.summary is None && self.target is None && self.url is None && self.version is None && self.whiteboard is None && self.custom_fields is None
    }

    /// Parameters set in `self`, with those it lacks taken from `other`.
    pub open spec fn spec_merged(self, other: Parameters) -> Parameters {
        Parameters {
            alias: spec_merge_option(self.alias, other.alias),
            assignee: spec_merge_option(self.assignee, other.assignee),
            blocks: spec_merge_option(self.blocks, other.blocks),
            cc: spec_merge_option(self.cc, other.cc),
            component: spec_merge_option(self.component, other.component),
            depends: spec_merge_option(self.depends, other.depends),
            description: spec_merge_option(self.description, other.description),
            flags: spec_merge_option(self.flags, other.flags),
            groups: spec_merge_option(self.groups, other.groups),
            keywords: spec_merge_option(self.keywords, other.keywords),
            os: spec_merge_option(self.os, other.os),
            platform: spec_merge_option(self.platform, other.platform),
            priority: spec_merge_option(self.priority, other.priority),
            product: spec_merge_option(self.product, other.product),
            qa: spec_merge_option(self.qa, other.qa),
            resolution: spec_merge_option(self.resolution, other.resolution),
            see_also: spec_merge_option(self.see_also, other.see_also),
            severity: spec_merge_option(self.severity, other.severity),
            status: spec_merge_option(self.status, other.status),
            summary: spec_merge_option(self.summary, other.summary),
            target: spec_merge_option(self.target, other.target),
            url: spec_merge_option(self.url, other.url),
            version: spec_merge_option(self.version, other.version),
            whiteboard: spec_merge_option(self.whiteboard, other.whiteboard),
            custom_fields: spec_merge_option(self.custom_fields, other.custom_fields),
        }
    }

    /// Parameters with nothing set.
    pub fn default() -> (r: Parameters)
        ensures
            r.spec_is_empty(),
    {
        Parameters {
            alias: None,
            assignee: None,
            blocks: None,
            cc: None,
            component: None,
            depends: None,
            description: None,
            flags: None,
            groups: None,
            keywords: None,
            os: None,
            platform: None,
            priority: None,
            product: None,
            qa: None,
            resolution: None,
            see_also: None,
            severity: None,
            status: None,
            summary: None,
            target: None,
            url: None,
            version: None,
            whiteboard: None,
            custom_fields: None,
        }
    }

    /// Fills the parameters that are not set from `other`.
    pub fn merge(&mut self, other: Parameters)
        ensures
            *final(self) == old(self).spec_merged(other),
    {
        let alias = merge_option(self.alias.take(), other.alias);
        let assignee = merge_option(self.assignee.take(), other.assignee);
        let blocks = merge_option(self.blocks.take(), other.blocks);
        let cc = merge_option(self.cc.take(), other.cc);
        let component = merge_option(self.component.take(), other.component);
        let depends = merge_option(self.depends.take(), other.depends);
        let description = merge_option(self.description.take(), other.description);
        let flags = merge_option(self.flags.take(), other.flags);
        let groups = merge_option(self.groups.take(), other.groups);
        let keywords = merge_option(self.keywords.take(), other.keywords);
        let os = merge_option(self.os.take(), other.os);
        let platform = merge_option(self.platform.take(), other.platform);
        let priority = merge_option(self.priority.take(), other.priority);
        let product = merge_option(self.product.take(), other.product);
        let qa = merge_option(self.qa.take(), other.qa);
        let resolution = merge_option(self.resolution.take(), other.resolution);
        let see_also = merge_option(self.see_also.take(), other.see_also);
        let severity = merge_option(self.severity.take(), other.severity);
        let status = merge_option(self.status.take(), other.status);
        let summary = merge_option(self.summary.take(), other.summary);
        let target = merge_option(self.target.take(), other.target);
        let url = merge_option(self.url.take(), other.url);
        let version = merge_option(self.version.take(), other.version);
        let whiteboard = merge_option(self.whiteboard.take(), other.whiteboard);
        let custom_fields = merge_option(self.custom_fields.take(), other.custom_fields);
        *self = Parameters { alias, assignee, blocks, cc, component, depends, description, flags, groups, keywords, os, platform, priority, product, qa, resolution, see_also, severity, status, summary, target, url, version, whiteboard, custom_fields };
    }

    /// Parameters for a bug like `bug`: its component, operating system, platform,
    /// priority, product, severity and version.
    pub fn from_bug(bug: Bug) -> (r: Parameters)
        ensures
            r.component == bug.component && r.os == bug.op_sys && r.platform == bug.platform
                && r.priority == bug.priority && r.product == bug.product && r.severity == bug.severity
                && r.version == bug.version,
            r.alias is None && r.assignee is None && r.blocks is None && r.cc is None && r.depends is None
                && r.description is None && r.flags is None && r.groups is None && r.keywords is None
                && r.qa is None && r.resolution is None && r.see_also is None && r.status is None
                && r.summary is None && r.target is None && r.url is None && r.whiteboard is None
                && r.custom_fields is None,
    {
        let mut r = Parameters::default();
        r.component = bug.component;
        r.os = bug.op_sys;
        r.platform = bug.platform;
        r.priority = bug.priority;
        r.product = bug.product;
        r.severity = bug.severity;
        r.version = bug.version;
        r
    }
}


/// Value of a field, or its default when it is not set.
pub open spec fn value_or(o: Option<String>, d: Seq<char>) -> Seq<char> {
    match o {
        Some(v) => v@,
        None => d,
    }
}

fn string_or(o: Option<String>, d: &str) -> (r: String)
    ensures
        r@ == value_or(o, d@),
{
    match o {
        Some(v) => v,
        None => owned(d),
    }
}

/// Names with `name` added when `value` is empty.
pub open spec fn add_if_empty(names: Seq<Seq<char>>, value: Seq<char>, name: Seq<char>) -> Seq<Seq<char>> {
    if value.len() == 0 {
        names.push(name)
    } else {
        names
    }
}

/// Required fields left empty, in sorted order: component, description, operating system,
/// platform, priority, product, severity, summary, version.
pub open spec fn missing_fields(p: Parameters) -> Seq<Seq<char>> {
    let m = add_if_empty(Seq::empty(), value_or(p.component, ""@), "component"@);
    let m = add_if_empty(m, value_or(p.description, ""@), "description"@);
    let m = add_if_empty(m, value_or(p.os, "All"@), "os"@);
    let m = add_if_empty(m, value_or(p.platform, "All"@), "platform"@);
    let m = add_if_empty(m, value_or(p.priority, "Normal"@), "priority"@);
    let m = add_if_empty(m, value_or(p.product, ""@), "product"@);
    let m = add_if_empty(m, value_or(p.severity, "normal"@), "severity"@);
    let m = add_if_empty(m, value_or(p.summary, ""@), "summary"@);
    add_if_empty(m, value_or(p.version, "unspecified"@), "version"@)
}

fn push_if_empty(names: &mut Vec<String>, value: &String, name: &str)
    ensures
        final(names)@.map_values(|x: String| x@) == add_if_empty(old(names)@.map_values(|x: String| x@), value@, name@),
{
    if value.as_str().is_empty() {
        let ghost before = names@;
        names.push(owned(name));
        assert(names@.map_values(|x: String| x@) =~= before.map_values(|x: String| x@).push(name@));
    }
}

proof fn lemma_add_if_empty_contains(names: Seq<Seq<char>>, value: Seq<char>, name: Seq<char>)
    ensures
        forall|x: Seq<char>| #[trigger] add_if_empty(names, value, name).contains(x) <==> names.contains(x) || (value.len() == 0 && x == name),
        add_if_empty(names, value, name).len() <= names.len() + 1,
        forall|i: int| 0 <= i < names.len() ==> #[trigger] add_if_empty(names, value, name)[i] == names[i],
{
    if value.len() == 0 {
        let r = names.push(name);
        assert(r[names.len() as int] == name);
        assert forall|x: Seq<char>| #[trigger] r.contains(x) <==> names.contains(x) || x == name by {
            if r.contains(x) {
                let i = choose|i: int| 0 <= i < r.len() && r[i] == x;
                if i < names.len() {
                    assert(names[i] == x);
                }
            }
            if names.contains(x) {
                let i = choose|i: int| 0 <= i < names.len() && names[i] == x;
                assert(r[i] == x);
            }
        }
    }
}

/// A required field is reported missing exactly when it ends up empty: component,
/// description, product and summary when unset or empty, operating system, platform,
/// priority, severity and version (which have defaults) only when set to empty text; no
/// other name is reported, and the names come in sorted order without repeats.
pub proof fn lemma_missing_fields(p: Parameters)
    ensures
        missing_fields(p).contains("component"@) <==> (p.component is None || p.component.unwrap()@.len() == 0),
        missing_fields(p).contains("description"@) <==> (p.description is None || p.description.unwrap()@.len() == 0),
        missing_fields(p).contains("os"@) <==> (p.os matches Some(v) && v@.len() == 0),
        missing_fields(p).contains("platform"@) <==> (p.platform matches Some(v) && v@.len() == 0),
        missing_fields(p).contains("priority"@) <==> (p.priority matches Some(v) && v@.len() == 0),
        missing_fields(p).contains("product"@) <==> (p.product is None || p.product.unwrap()@.len() == 0),
        missing_fields(p).contains("severity"@) <==> (p.severity matches Some(v) && v@.len() == 0),
        missing_fields(p).contains("summary"@) <==> (p.summary is None || p.summary.unwrap()@.len() == 0),
        missing_fields(p).contains("version"@) <==> (p.version matches Some(v) && v@.len() == 0),
        forall|i: int| 0 <= i < missing_fields(p).len() ==> seq!["component"@, "description"@, "os"@, "platform"@, "priority"@, "product"@, "severity"@, "summary"@, "version"@].contains(#[trigger] missing_fields(p)[i]),
        forall|i: int, j: int| 0 <= i < j < missing_fields(p).len() ==> missing_fields(p)[i] != missing_fields(p)[j],
{
    reveal_strlit("component");
    reveal_strlit("description");
    reveal_strlit("os");
    reveal_strlit("platform");
    reveal_strlit("priority");
    reveal_strlit("product");
    reveal_strlit("severity");
    reveal_strlit("summary");
    reveal_strlit("version");
    reveal_strlit("");
    reveal_strlit("All");
    reveal_strlit("Normal");
    reveal_strlit("normal");
    reveal_strlit("unspecified");
    assert(""@ =~= Seq::<char>::empty());
    let m0: Seq<Seq<char>> = Seq::empty();
    let m1 = add_if_empty(m0, value_or(p.component, ""@), "component"@);
    lemma_add_if_empty_contains(m0, value_or(p.component, ""@), "component"@);
    let m2 = add_if_empty(m1, value_or(p.description, ""@), "description"@);
    lemma_add_if_empty_contains(m1, value_or(p.description, ""@), "description"@);
    let m3 = add_if_empty(m2, value_or(p.os, "All"@), "os"@);
    lemma_add_if_empty_contains(m2, value_or(p.os, "All"@), "os"@);
    let m4 = add_if_empty(m3, value_or(p.platform, "All"@), "platform"@);
    lemma_add_if_empty_contains(m3, value_or(p.platform, "All"@), "platform"@);
    let m5 = add_if_empty(m4, value_or(p.priority, "Normal"@), "priority"@);
    lemma_add_if_empty_contains(m4, value_or(p.priority, "Normal"@), "priority"@);
    let m6 = add_if_empty(m5, value_or(p.product, ""@), "product"@);
    lemma_add_if_empty_contains(m5, value_or(p.product, ""@), "product"@);
    let m7 = add_if_empty(m6, value_or(p.severity, "normal"@), "severity"@);
    lemma_add_if_empty_contains(m6, value_or(p.severity, "normal"@), "severity"@);
    let m8 = add_if_empty(m7, value_or(p.summary, ""@), "summary"@);
    lemma_add_if_empty_contains(m7, value_or(p.summary, ""@), "summary"@);
    let m9 = add_if_empty(m8, value_or(p.version, "unspecified"@), "version"@);
    lemma_add_if_empty_contains(m8, value_or(p.version, "unspecified"@), "version"@);
    assert(missing_fields(p) == m9);
    let all = seq!["component"@, "description"@, "os"@, "platform"@, "priority"@, "product"@, "severity"@, "summary"@, "version"@];
    assert forall|i: int, j: int| 0 <= i < j < all.len() implies all[i] != all[j] by {
        if all[i] == all[j] {
            assert(all[i].len() == all[j].len());
            assert(all[i][0] == all[j][0]);
            assert(all[i][1] == all[j][1]);
        }
    }
}

/// Parameters of a bug creation as submitted.
#[derive(Debug)]
pub struct RequestParameters {
    pub component: String,
    pub description: String,
    pub op_sys: String,
    pub platform: String,
    pub priority: String,
    pub product: String,
    pub severity: String,
    pub summary: String,
    pub version: String,
    pub alias: Option<Vec<String>>,
    pub assigned_to: Option<String>,
    pub blocks: Option<Vec<String>>,
    pub cc: Option<Vec<String>>,
    pub depends_on: Option<Vec<String>>,
    pub flags: Option<Vec<Flag>>,
    pub groups: Option<Vec<String>>,
    pub keywords: Option<Vec<String>>,
    pub qa_contact: Option<String>,
    pub resolution: Option<String>,
    pub see_also: Option<Vec<String>>,
    pub status: Option<String>,
    pub target_milestone: Option<String>,
    pub url: Option<String>,
    pub whiteboard: Option<String>,
    pub custom_fields: Option<Vec<(String, String)>>,
}

/// A person as submitted, a user alias replaced.
pub open spec fn person_as_sent(o: Option<String>, user: Option<String>) -> Option<Seq<char>> {
    match o {
        Some(v) => Some(spec_user_alias(user, v@)),
        None => None,
    }
}

fn person_as_sent_exec(service: &Bugzilla, o: &Option<String>) -> (r: Option<String>)
    ensures
        match r {
            Some(x) => person_as_sent(*o, service.config.auth.user) == Some(x@),
            None => person_as_sent(*o, service.config.auth.user) is None,
        },
{
    match o {
        Some(v) => Some(service.replace_user_alias(v.as_str())),
        None => None,
    }
}

/// Bug creation request.
#[derive(Debug)]
pub struct Request {
    pub service: Bugzilla,
    pub params: Parameters,
}

impl Request {
    /// A creation request with no parameters set.
    pub fn new(service: Bugzilla) -> (r: Request)
        ensures
            r.service == service,
            r.params.spec_is_empty(),
    {
        Request { service, params: Parameters::default() }
    }

    /// Encode the parameters for submission: operating system and platform default to
    /// `All`, priority to `Normal`, severity to `normal`, version to `unspecified`; a
    /// required field left empty is an invalid request naming the empty fields.
    pub fn encode(self) -> (r: Result<RequestParameters, Error>)
        ensures
            missing_fields(self.params).len() > 0 ==> (r matches Err(e) && e.is_invalid_request(
                "missing required fields: "@ + seq_join(missing_fields(self.params), ", "@),
            )),
            missing_fields(self.params).len() == 0 ==> (r matches Ok(x) && {
                let p = self.params;
                let user = self.service.config.auth.user;
                &&& x.component@ == value_or(p.component, ""@)
                &&& x.description@ == value_or(p.description, ""@)
                &&& x.op_sys@ == value_or(p.os, "All"@)
                &&& x.platform@ == value_or(p.platform, "All"@)
                &&& x.priority@ == value_or(p.priority, "Normal"@)
                &&& x.product@ == value_or(p.product, ""@)
                &&& x.severity@ == value_or(p.severity, "normal"@)
                &&& x.summary@ == value_or(p.summary, ""@)
                &&& x.version@ == value_or(p.version, "unspecified"@)
                &&& x.alias == p.alias && x.blocks == p.blocks && x.cc == p.cc && x.depends_on == p.depends
                &&& x.flags == p.flags && x.groups == p.groups && x.keywords == p.keywords
                &&& x.resolution == p.resolution && x.see_also == p.see_also && x.status == p.status
                &&& x.target_milestone == p.target && x.url == p.url && x.whiteboard == p.whiteboard
                &&& x.custom_fields == p.custom_fields
                &&& (match x.assigned_to {
                    Some(a) => person_as_sent(p.assignee, user) == Some(a@),
                    None => p.assignee is None,
                })
                &&& (match x.qa_contact {
                    Some(a) => person_as_sent(p.qa, user) == Some(a@),
                    None => p.qa is None,
                })
            }),
    {
        let assigned_to = person_as_sent_exec(&self.service, &self.params.assignee);
        let qa_contact = person_as_sent_exec(&self.service, &self.params.qa);
        let p = self.params;
        let x = RequestParameters {
            component: string_or(p.component, ""),
            description: string_or(p.description, ""),
            op_sys: string_or(p.os, "All"),
            platform: string_or(p.platform, "All"),
            priority: string_or(p.priority, "Normal"),
            product: string_or(p.product, ""),
            severity: string_or(p.severity, "normal"),
            summary: string_or(p.summary, ""),
            version: string_or(p.version, "unspecified"),
            alias: p.alias,
            assigned_to,
            blocks: p.blocks,
            cc: p.cc,
            depends_on: p.depends,
            flags: p.flags,
            groups: p.groups,
            keywords: p.keywords,
            qa_contact,
            resolution: p.resolution,
            see_also: p.see_also,
            status: p.status,
            target_milestone: p.target,
            url: p.url,
            whiteboard: p.whiteboard,
            custom_fields: p.custom_fields,
        };
        let mut missing: Vec<String> = Vec::new();
        push_if_empty(&mut missing, &x.component, "component");
        push_if_empty(&mut missing, &x.description, "description");
        push_if_empty(&mut missing, &x.op_sys, "os");
        push_if_empty(&mut missing, &x.platform, "platform");
        push_if_empty(&mut missing, &x.priority, "priority");
        push_if_empty(&mut missing, &x.product, "product");
        push_if_empty(&mut missing, &x.severity, "severity");
        push_if_empty(&mut missing, &x.summary, "summary");
        push_if_empty(&mut missing, &x.version, "version");
        proof {
            reveal_strlit("");
        }
        assert(Seq::<String>::empty().map_values(|x: String| x@) =~= Seq::<Seq<char>>::empty());
        if missing.len() > 0 {
            let fields = join(&missing, ", ");
            return Err(Error::InvalidRequest(concat("missing required fields: ", fields.as_str())));
        }
        Ok(x)
    }

    /// Sets the `alias` parameter.
    pub fn alias(self, value: Vec<String>) -> (r: Request)
        ensures
            r.service == self.service,
            r.params == (Parameters { alias: Some(value), ..self.params }),
    {
        let Request { service, mut params } = self;
        params.alias = Some(value);
        Request { service, params }
    }

    /// Sets the `blocks` parameter.
    pub fn blocks(self, value: Vec<String>) -> (r: Request)
        ensures
            r.service == self.service,
            r.params == (Parameters { blocks: Some(value), ..self.params }),
    {
        let Request { service, mut params } = self;
        params.blocks = Some(value);
        Request { service, params }
    }

    /// Sets the `cc` parameter.
    pub fn cc(self, value: Vec<String>) -> (r: Request)
        ensures
            r.service == self.service,
            r.params == (Parameters { cc: Some(value), ..self.params }),
    {
        let Request { service, mut params } = self;
        params.cc = Some(value);
        Request { service, params }
    }

    /// Sets the `depends` parameter.
    pub fn depends(self, value: Vec<String>) -> (r: Request)
        ensures
            r.service == self.service,
            r.params == (Parameters { depends: Some(value), ..self.params }),
    {
        let Request { service, mut params } = self;
        params.depends = Some(value);
        Request { service, params }
    }

    /// Sets the `groups` parameter.
    pub fn groups(self, value: Vec<String>) -> (r: Request)
        ensures
            r.service == self.service,
            r.params == (Parameters { groups: Some(value), ..self.params }),
    {
        let Request { service, mut params } = self;
        params.groups = Some(value);
        Request { service, params }
    }

    /// Sets the `keywords` parameter.
    pub fn keywords(self, value: Vec<String>) -> (r: Request)
        ensures
            r.service == self.service,
            r.params == (Parameters { keywords: Some(value), ..self.params }),
    {
        let Request { service, mut params } = self;
        params.keywords = Some(value);
        Request { service, params }
    }

    /// Sets the `see_also` parameter.
    pub fn see_also(self, value: Vec<String>) -> (r: Request)
        ensures
            r.service == self.service,
            r.params == (Parameters { see_also: Some(value), ..self.params }),
    {
        let Request { service, mut params } = self;
        params.see_also = Some(value);
        Request { service, params }
    }

    /// Sets the `assignee` parameter.
    pub fn assignee(self, value: &str) -> (r: Request)
        ensures
            r.service == self.service,
            r.params == (Parameters { assignee: r.params.assignee, ..self.params }),
            r.params.assignee matches Some(v) && v@ == value@,
    {
        let Request { service, mut params } = self;
        params.assignee = Some(owned(value));
        Request { service, params }
    }

    /// Sets the `component` parameter.
    pub fn component(self, value: &str) -> (r: Request)
        ensures
            r.service == self.service,
            r.params == (Parameters { component: r.params.component, ..self.params }),
            r.params.component matches Some(v) && v@ == value@,
    {
        let Request { service, mut params } = self;
        params.component = Some(owned(value));
        Request { service, params }
    }

    /// Sets the `description` parameter.
    pub fn description(self, value: &str) -> (r: Request)
        ensures
            r.service == self.service,
            r.params == (Parameters { description: r.params.description, ..self.params }),
            r.params.description matches Some(v) && v@ == value@,
    {
        let Request { service, mut params } = self;
        params.description = Some(owned(value));
        Request { service, params }
    }

    /// Sets the `os` parameter.
    pub fn os(self, value: &str) -> (r: Request)
        ensures
            r.service == self.service,
            r.params == (Parameters { os: r.params.os, ..self.params }),
            r.params.os matches Some(v) && v@ == value@,
    {
        let Request { service, mut params } = self;
        params.os = Some(owned(value));
        Request { service, params }
    }

    /// Sets the `platform` parameter.
    pub fn platform(self, value: &str) -> (r: Request)
        ensures
            r.service == self.service,
            r.params == (Parameters { platform: r.params.platform, ..self.params }),
            r.params.platform matches Some(v) && v@ == value@,
    {
        let Request { service, mut params } = self;
        params.platform = Some(owned(value));
        Request { service, params }
    }

    /// Sets the `priority` parameter.
    pub fn priority(self, value: &str) -> (r: Request)
        ensures
            r.service == self.service,
            r.params == (Parameters { priority: r.params.priority, ..self.params }),
            r.params.priority matches Some(v) && v@ == value@,
    {
        let Request { service, mut params } = self;
        params.priority = Some(owned(value));
        Request { service, params }
    }

    /// Sets the `product` parameter.
    pub fn product(self, value: &str) -> (r: Request)
        ensures
            r.service == self.service,
            r.params == (Parameters { product: r.params.product, ..self.params }),
            r.params.product matches Some(v) && v@ == value@,
    {
        let Request { service, mut params } = self;
        params.product = Some(owned(value));
        Request { service, params }
    }

    /// Sets the `qa` parameter.
    pub fn qa(self, value: &str) -> (r: Request)
        ensures
            r.service == self.service,
            r.params == (Parameters { qa: r.params.qa, ..self.params }),
            r.params.qa matches Some(v) && v@ == value@,
    {
        let Request { service, mut params } = self;
        params.qa = Some(owned(value));
        Request { service, params }
    }

    /// Sets the `resolution` parameter.
    pub fn resolution(self, value: &str) -> (r: Request)
        ensures
            r.service == self.service,
            r.params == (Parameters { resolution: r.params.resolution, ..self.params }),
            r.params.resolution matches Some(v) && v@ == value@,
    {
        let Request { service, mut params } = self;
        params.resolution = Some(owned(value));
        Request { service, params }
    }

    /// Sets the `severity` parameter.
    pub fn severity(self, value: &str) -> (r: Request)
        ensures
            r.service == self.service,
            r.params == (Parameters { severity: r.params.severity, ..self.params }),
            r.params.severity matches Some(v) && v@ == value@,
    {
        let Request { service, mut params } = self;
        params.severity = Some(owned(value));
        Request { service, params }
    }

    /// Sets the `status` parameter.
    pub fn status(self, value: &str) -> (r: Request)
        ensures
            r.service == self.service,
            r.params == (Parameters { status: r.params.status, ..self.params }),
            r.params.status matches Some(v) && v@ == value@,
    {
        let Request { service, mut params } = self;
        params.status = Some(owned(value));
        Request { service, params }
    }

    /// Sets the `summary` parameter.
    pub fn summary(self, value: &str) -> (r: Request)
        ensures
            r.service == self.service,
            r.params == (Parameters { summary: r.params.summary, ..self.params }),
            r.params.summary matches Some(v) && v@ == value@,
    {
        let Request { service, mut params } = self;
        params.summary = Some(owned(value));
        Request { service, params }
    }

    /// Sets the `target` parameter.
    pub fn target(self, value: &str) -> (r: Request)
        ensures
            r.service == self.service,
            r.params == (Parameters { target: r.params.target, ..self.params }),
            r.params.target matches Some(v) && v@ == value@,
    {
        let Request { service, mut params } = self;
        params.target = Some(owned(value));
        Request { service, params }
    }

    /// Sets the `url` parameter.
    pub fn url(self, value: &str) -> (r: Request)
        ensures
            r.service == self.service,
            r.params == (Parameters { url: r.params.url, ..self.params }),
            r.params.url matches Some(v) && v@ == value@,
    {
        let Request { service, mut params } = self;
        params.url = Some(owned(value));
        Request { service, params }
    }

    /// Sets the `version` parameter.
    pub fn version(self, value: &str) -> (r: Request)
        ensures
            r.service == self.service,
            r.params == (Parameters { version: r.params.version, ..self.params }),
            r.params.version matches Some(v) && v@ == value@,
    {
        let Request { service, mut params } = self;
        params.version = Some(owned(value));
        Request { service, params }
    }

    /// Sets the `whiteboard` parameter.
    pub fn whiteboard(self, value: &str) -> (r: Request)
        ensures
            r.service == self.service,
            r.params == (Parameters { whiteboard: r.params.whiteboard, ..self.params }),
            r.params.whiteboard matches Some(v) && v@ == value@,
    {
        let Request { service, mut params } = self;
        params.whiteboard = Some(owned(value));
        Request { service, params }
    }

    /// Sets the `flags` parameter.
    pub fn flags(self, value: Vec<Flag>) -> (r: Request)
        ensures
            r.service == self.service,
            r.params == (Parameters { flags: Some(value), ..self.params }),
    {
        let Request { service, mut params } = self;
        params.flags = Some(value);
        Request { service, params }
    }

    /// Sets the `custom_fields` parameter.
    pub fn custom_fields(self, value: Vec<(String, String)>) -> (r: Request)
        ensures
            r.service == self.service,
            r.params == (Parameters { custom_fields: Some(value), ..self.params }),
    {
        let Request { service, mut params } = self;
        params.custom_fields = Some(value);
        Request { service, params }
    }
}

} // verus!

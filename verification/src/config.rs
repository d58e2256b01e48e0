//! Connection configs: which service config a request on a connection uses.
use vstd::prelude::*;

use crate::error::Error;
use crate::service::bugzilla::{self, invalid_base_message, Authentication};
use crate::service::github;
use crate::service::{ClientParameters, ServiceKind};
use crate::text::{concat, owned, str_eq, trim_end_char};
use crate::traits::{spec_merge_option, ToText};
use crate::web::{parse_url, url_parse_result};

verus! {

/// Config of a service connection.
#[derive(Debug)]
pub enum ServiceConfig {
    Bugzilla(bugzilla::Config),
    Github(github::Config),
    Redmine(github::Config),
}

/// Text of an optional string.
pub open spec fn opt_text(o: Option<String>) -> Option<Seq<char>> {
    match o {
        Some(s) => Some(s@),
        None => None,
    }
}

fn dup_opt(o: &Option<String>) -> (r: Option<String>)
    ensures
        opt_text(r) == opt_text(*o),
{
    match o {
        Some(s) => Some(s.clone()),
        None => None,
    }
}

/// Whether two sets of client parameters hold the same values.
pub open spec fn same_client(a: ClientParameters, b: ClientParameters) -> bool {
    &&& opt_text(a.certificate) == opt_text(b.certificate)
    &&& a.concurrent == b.concurrent
    &&& a.insecure == b.insecure
    &&& opt_text(a.proxy) == opt_text(b.proxy)
    &&& a.timeout == b.timeout
}

/// Client parameters of `a` with those it lacks taken from `b`.
pub open spec fn merged_client(a: ClientParameters, b: ClientParameters, r: ClientParameters) -> bool {
    &&& opt_text(r.certificate) == opt_text(spec_merge_option(a.certificate, b.certificate))
    &&& r.concurrent == spec_merge_option(a.concurrent, b.concurrent)
    &&& r.insecure == spec_merge_option(a.insecure, b.insecure)
    &&& opt_text(r.proxy) == opt_text(spec_merge_option(a.proxy, b.proxy))
    &&& r.timeout == spec_merge_option(a.timeout, b.timeout)
}

fn dup_client(c: &ClientParameters) -> (r: ClientParameters)
    ensures
        same_client(r, *c),
{
    ClientParameters {
        certificate: dup_opt(&c.certificate),
        concurrent: c.concurrent,
        insecure: c.insecure,
        proxy: dup_opt(&c.proxy),
        timeout: c.timeout,
    }
}

/// Whether two service configs hold the same values, their client parameters aside.
pub open spec fn same_service(a: ServiceConfig, b: ServiceConfig) -> bool {
    match (a, b) {
        (ServiceConfig::Bugzilla(x), ServiceConfig::Bugzilla(y)) => {
            &&& x.base@ == y.base@
            &&& x.name@ == y.name@
            &&& opt_text(x.auth.key) == opt_text(y.auth.key)
            &&& opt_text(x.auth.user) == opt_text(y.auth.user)
            &&& opt_text(x.auth.password) == opt_text(y.auth.password)
            &&& x.max_search_results == y.max_search_results
        },
        (ServiceConfig::Github(x), ServiceConfig::Github(y)) => x.base@ == y.base@ && opt_text(x.token)
            == opt_text(y.token),
        (ServiceConfig::Redmine(x), ServiceConfig::Redmine(y)) => x.base@ == y.base@ && opt_text(x.token)
            == opt_text(y.token),
        _ => false,
    }
}

impl ServiceConfig {
    /// Client parameters of the config.
    pub open spec fn spec_client(&self) -> ClientParameters {
        match self {
            ServiceConfig::Bugzilla(c) => c.client,
            ServiceConfig::Github(c) => c.client,
            ServiceConfig::Redmine(c) => c.client,
        }
    }

    /// Kind of service the config is for.
    pub open spec fn spec_kind(&self) -> ServiceKind {
        match self {
            ServiceConfig::Bugzilla(_) => ServiceKind::Bugzilla,
            ServiceConfig::Github(_) => ServiceKind::Github,
            ServiceConfig::Redmine(_) => ServiceKind::Redmine,
        }
    }

    /// Kind of service the config is for.
    pub fn kind(&self) -> (r: ServiceKind)
        ensures
            r == self.spec_kind(),
    {
        match self {
            ServiceConfig::Bugzilla(_) => ServiceKind::Bugzilla,
            ServiceConfig::Github(_) => ServiceKind::Github,
            ServiceConfig::Redmine(_) => ServiceKind::Redmine,
        }
    }

    /// A config of the given kind for the service at `base`.
    pub fn new(kind: ServiceKind, base: &str) -> (r: Result<ServiceConfig, Error>)
        ensures
            match url_parse_result(trim_end_char(base@, '/') + seq!['/']) {
                Ok(u) => r matches Ok(c) && c.spec_kind() == kind && (match c {
                    ServiceConfig::Bugzilla(x) => x.base@ == u,
                    ServiceConfig::Github(x) => x.base@ == u,
                    ServiceConfig::Redmine(x) => x.base@ == u,
                }),
                Err(e) => r matches Err(x) && x.is_invalid_value(invalid_base_message(trim_end_char(base@, '/'), e)),
            },
    {
        match kind {
            ServiceKind::Bugzilla => match bugzilla::Config::new(base) {
                Ok(c) => Ok(ServiceConfig::Bugzilla(c)),
                Err(e) => Err(e),
            },
            ServiceKind::Github => match github::Config::new(base) {
                Ok(c) => Ok(ServiceConfig::Github(c)),
                Err(e) => Err(e),
            },
            ServiceKind::Redmine => match github::Config::new(base) {
                Ok(c) => Ok(ServiceConfig::Redmine(c)),
                Err(e) => Err(e),
            },
        }
    }

    /// Fills the client parameters the config lacks from `value`.
    pub fn merge(&mut self, value: ClientParameters)
        ensures
            same_service(*final(self), *old(self)),
            merged_client(old(self).spec_client(), value, final(self).spec_client()),
    {
        match self {
            ServiceConfig::Bugzilla(c) => c.client.merge(value),
            ServiceConfig::Github(c) => c.client.merge(value),
            ServiceConfig::Redmine(c) => c.client.merge(value),
        }
    }

    /// A copy of the config.
    pub fn duplicate(&self) -> (r: ServiceConfig)
        ensures
            same_service(r, *self),
            same_client(r.spec_client(), self.spec_client()),
    {
        match self {
            ServiceConfig::Bugzilla(c) => ServiceConfig::Bugzilla(bugzilla::Config {
                base: c.base.clone(),
                name: c.name.clone(),
                auth: Authentication {
                    key: dup_opt(&c.auth.key),
                    user: dup_opt(&c.auth.user),
                    password: dup_opt(&c.auth.password),
                },
                client: dup_client(&c.client),
                max_search_results: c.max_search_results,
            }),
            ServiceConfig::Github(c) => ServiceConfig::Github(github::Config {
                base: c.base.clone(),
                token: dup_opt(&c.token),
                client: dup_client(&c.client),
            }),
            ServiceConfig::Redmine(c) => ServiceConfig::Redmine(github::Config {
                base: c.base.clone(),
                token: dup_opt(&c.token),
                client: dup_client(&c.client),
            }),
        }
    }
}

/// Registered connection configs and the defaults that apply to them.
#[derive(Debug)]
pub struct Config {
    /// Default connection.
    pub default_connection: Option<String>,
    /// Default client parameters.
    pub client: ClientParameters,
    /// Registered service connections by name.
    pub services: Vec<(String, ServiceConfig)>,
}

/// Position of the first registered connection with the given name.
pub open spec fn find_service(services: Seq<(String, ServiceConfig)>, name: Seq<char>) -> Option<int>
    decreases services.len(),
{
    if services.len() == 0 {
        None
    } else {
        match find_service(services.drop_last(), name) {
            Some(i) => Some(i),
            None => if services.last().0@ == name {
                Some(services.len() - 1)
            } else {
                None
            },
        }
    }
}

/// Outcome of choosing the config of a connection for a service kind: the connection
/// name (given, else the default), then its registered config when it has one and is of
/// the kind, else a new config when the name is a URL.
pub enum Selection {
    /// No connection was given and there is no default.
    NoConnection,
    /// The registered config at this position is of another kind.
    WrongKind(int),
    /// The registered config at this position is used.
    Registered(int),
    /// The connection is a URL that a new config is made for.
    New(Seq<char>),
    /// The connection is neither registered nor a URL.
    Unknown(Seq<char>),
}

impl Config {
    /// Name of the connection: the given one, else the default.
    pub open spec fn spec_connection(&self, connection: Option<&str>) -> Option<Seq<char>> {
        match connection {
            Some(c) => Some(c@),
            None => opt_text(self.default_connection),
        }
    }

    /// How the config of a connection is chosen.
    pub open spec fn spec_selection(&self, kind: ServiceKind, connection: Option<&str>) -> Selection {
        match self.spec_connection(connection) {
            None => Selection::NoConnection,
            Some(n) => match find_service(self.services@, n) {
                Some(i) => if self.services@[i].1.spec_kind() != kind {
                    Selection::WrongKind(i)
                } else {
                    Selection::Registered(i)
                },
                None => if url_parse_result(n) is Ok {
                    Selection::New(n)
                } else {
                    Selection::Unknown(n)
                },
            },
        }
    }

    /// Position of the first registered connection with the given name.
    fn find(&self, name: &str) -> (r: Option<usize>)
        ensures
            match r {
                Some(i) => find_service(self.services@, name@) == Some(i as int) && i < self.services@.len(),
                None => find_service(self.services@, name@) is None,
            },
    {
        let mut i: usize = 0;
        while i < self.services.len()
            invariant
                i <= self.services@.len(),
                find_service(self.services@.subrange(0, i as int), name@) is None,
            decreases self.services.len() - i,
        {
            assert(self.services@.subrange(0, i + 1).drop_last() =~= self.services@.subrange(0, i as int));
            if str_eq(self.services[i].0.as_str(), name) {
                proof { lemma_find_prefix(self.services@, name@, i + 1); }
                return Some(i);
            }
            i = i + 1;
        }
        assert(self.services@.subrange(0, self.services@.len() as int) =~= self.services@);
        None
    }

    /// The config of a connection for a service kind, before connection-specific settings
    /// from the environment apply: the connection is the given one or the default; a
    /// registered connection must be of the kind; an unregistered one must be a URL, for
    /// which a new config is made. Refusals are invalid values.
    pub fn select(&self, kind: ServiceKind, connection: Option<&str>) -> (r: Result<(String, ServiceConfig), Error>)
        ensures
            match self.spec_selection(kind, connection) {
                Selection::NoConnection => r matches Err(e) && e.is_invalid_value("no connection specified"@),
                Selection::WrongKind(i) => r matches Err(e) && e.is_invalid_value(
                    "invalid service type: "@ + self.services@[i].1.spec_kind().spec_name(),
                ),
                Selection::Registered(i) => r matches Ok((n, c)) && Some(n@) == self.spec_connection(connection)
                    && same_service(c, self.services@[i].1) && same_client(c.spec_client(), self.services@[i].1.spec_client()),
                Selection::New(n) => match url_parse_result(trim_end_char(n, '/') + seq!['/']) {
                    Ok(u) => r matches Ok((m, c)) && m@ == n && c.spec_kind() == kind && (match c {
                        ServiceConfig::Bugzilla(x) => x.base@ == u,
                        ServiceConfig::Github(x) => x.base@ == u,
                        ServiceConfig::Redmine(x) => x.base@ == u,
                    }),
                    Err(e) => r matches Err(x) && x.is_invalid_value(invalid_base_message(trim_end_char(n, '/'), e)),
                },
                Selection::Unknown(n) => r matches Err(e) && e.is_invalid_value("unknown connection: "@ + n),
            },
    {
        let name = match connection {
            Some(c) => owned(c),
            None => match &self.default_connection {
                Some(d) => d.clone(),
                None => return Err(Error::InvalidValue(owned("no connection specified"))),
            },
        };
        match self.find(name.as_str()) {
            Some(i) => {
                let c = &self.services[i].1;
                if c.kind() != kind {
                    let k = c.kind().to_text();
                    return Err(Error::InvalidValue(concat("invalid service type: ", k.as_str())));
                }
                Ok((name, c.duplicate()))
            },
            None => {
                if parse_url(name.as_str()).is_ok() {
                    match ServiceConfig::new(kind, name.as_str()) {
                        Ok(c) => Ok((name, c)),
                        Err(e) => Err(e),
                    }
                } else {
                    Err(Error::InvalidValue(concat("unknown connection: ", name.as_str())))
                }
            },
        }
    }

    /// A Bugzilla service builder for a connection: the config `select` gives for the
    /// Bugzilla kind, with the same refusals.
    pub fn bugzilla_builder(&self, connection: Option<&str>) -> (r: Result<bugzilla::ServiceBuilder, Error>)
        ensures
            match self.spec_selection(ServiceKind::Bugzilla, connection) {
                Selection::NoConnection => r matches Err(e) && e.is_invalid_value("no connection specified"@),
                Selection::WrongKind(i) => r matches Err(e) && e.is_invalid_value(
                    "invalid service type: "@ + self.services@[i].1.spec_kind().spec_name(),
                ),
                Selection::Registered(i) => r matches Ok(b) && same_service(
                    ServiceConfig::Bugzilla(b.config),
                    self.services@[i].1,
                ) && same_client(b.config.client, self.services@[i].1.spec_client()),
                Selection::New(n) => match url_parse_result(trim_end_char(n, '/') + seq!['/']) {
                    Ok(u) => r matches Ok(b) && b.config.base@ == u,
                    Err(e) => r matches Err(x) && x.is_invalid_value(invalid_base_message(trim_end_char(n, '/'), e)),
                },
                Selection::Unknown(n) => r matches Err(e) && e.is_invalid_value("unknown connection: "@ + n),
            },
    {
        match self.select(ServiceKind::Bugzilla, connection) {
            Ok((_, ServiceConfig::Bugzilla(c))) => Ok(bugzilla::ServiceBuilder { config: c }),
            Ok((_, other)) => {
                let k = other.kind().to_text();
                Err(Error::InvalidValue(concat("invalid service type: ", k.as_str())))
            },
            Err(e) => Err(e),
        }
    }

    /// Get the service variant for the default connection if it exists.
    pub fn default_service(&self) -> (r: Option<ServiceKind>)
        ensures
            r == (match opt_text(self.default_connection) {
                Some(n) => match find_service(self.services@, n) {
                    Some(i) => Some(self.services@[i].1.spec_kind()),
                    None => None,
                },
                None => None,
            }),
    {
        match &self.default_connection {
            Some(n) => match self.find(n.as_str()) {
                Some(i) => Some(self.services[i].1.kind()),
                None => None,
            },
            None => None,
        }
    }
}

proof fn lemma_find_prefix(s: Seq<(String, ServiceConfig)>, name: Seq<char>, j: int)
    requires
        0 <= j <= s.len(),
        find_service(s.subrange(0, j), name) is Some,
    ensures
        find_service(s, name) == find_service(s.subrange(0, j), name),
    decreases s.len(),
{
    if j == s.len() {
        assert(s.subrange(0, j) =~= s);
    } else {
        assert(s.drop_last().subrange(0, j) =~= s.subrange(0, j));
        lemma_find_prefix(s.drop_last(), name, j);
    }
}

/// Whether `a` comes before `b` when compared from position `i` on, character by
/// character by code point, a proper prefix coming first.
pub open spec fn text_lt_from(a: Seq<char>, b: Seq<char>, i: int) -> bool
    decreases b.len() - i,
{
    if i < 0 || i >= b.len() {
        false
    } else if i >= a.len() {
        true
    } else if a[i] != b[i] {
        (a[i] as u32) < (b[i] as u32)
    } else {
        text_lt_from(a, b, i + 1)
    }
}

/// Whether `a` sorts before `b`: lexicographic order by code point, which is the order of
/// their UTF-8 bytes, the order of `String`.
pub open spec fn text_lt(a: Seq<char>, b: Seq<char>) -> bool {
    text_lt_from(a, b, 0)
}

proof fn lemma_text_lt_asymmetric(a: Seq<char>, b: Seq<char>, i: int)
    requires
        0 <= i,
        text_lt_from(a, b, i),
    ensures
        !text_lt_from(b, a, i),
    decreases b.len() - i,
{
    if i < b.len() && i < a.len() && a[i] == b[i] {
        lemma_text_lt_asymmetric(a, b, i + 1);
    }
}

proof fn lemma_text_lt_transitive(a: Seq<char>, b: Seq<char>, c: Seq<char>, i: int)
    requires
        0 <= i,
        text_lt_from(a, b, i),
        text_lt_from(b, c, i),
    ensures
        text_lt_from(a, c, i),
    decreases c.len() - i,
{
    if i < a.len() && i < b.len() && i < c.len() && a[i] == b[i] && b[i] == c[i] {
        lemma_text_lt_transitive(a, b, c, i + 1);
    }
}

/// Whether `a` sorts before `b`.
pub fn name_lt(a: &str, b: &str) -> (r: bool)
    ensures
        r == text_lt(a@, b@),
{
    let x = crate::text::chars_of(a);
    let y = crate::text::chars_of(b);
    let mut i: usize = 0;
    while i < x.len() && i < y.len()
        invariant
            x@ == a@,
            y@ == b@,
            i <= x.len() && i <= y.len(),
            text_lt(a@, b@) == text_lt_from(a@, b@, i as int),
        decreases x.len() - i,
    {
        if x[i] != y[i] {
            return (x[i] as u32) < (y[i] as u32);
        }
        i = i + 1;
    }
    i < y.len()
}

/// Whether connections are in order of their names.
pub open spec fn names_sorted(s: Seq<(String, ServiceConfig)>) -> bool {
    forall|i: int, j: int| 0 <= i < j < s.len() ==> !text_lt(#[trigger] s[j].0@, #[trigger] s[i].0@)
}

/// Name of a connection loaded from the file at `path`: the name it gives with whitespace
/// trimmed; an empty name is refused.
pub fn connection_name(name: &str, path: &str) -> (r: Result<String, Error>)
    ensures
        crate::text::spec_trim(name@).len() > 0 ==> (r matches Ok(n) && n@ == crate::text::spec_trim(name@)),
        crate::text::spec_trim(name@).len() == 0 ==> (r matches Err(e) && e.is_invalid_value(
            "invalid connection name: "@ + path@,
        )),
{
    let n = crate::text::trim(name);
    if n.as_str().is_empty() {
        Err(Error::InvalidValue(concat("invalid connection name: ", path)))
    } else {
        Ok(n)
    }
}

impl Config {
    /// Registers a connection: a registered one of the same name gets the new config in
    /// place, else the connection is added at the end.
    pub fn insert_connection(&mut self, name: String, config: ServiceConfig)
        ensures
            final(self).default_connection == old(self).default_connection,
            final(self).client == old(self).client,
            match find_service(old(self).services@, name@) {
                Some(i) => final(self).services@ == old(self).services@.update(
                    i,
                    (old(self).services@[i].0, config),
                ),
                None => final(self).services@ == old(self).services@.push((name, config)),
            },
    {
        match self.find(name.as_str()) {
            Some(i) => {
                let (key, _) = self.services.remove(i);
                self.services.insert(i, (key, config));
                assert(self.services@ =~= old(self).services@.update(i as int, (old(self).services@[i as int].0, config)));
            },
            None => {
                self.services.push((name, config));
            },
        }
    }

    /// Puts the connections in order of their names, keeping the order of equal names.
    pub fn sort_connections(&mut self)
        ensures
            final(self).default_connection == old(self).default_connection,
            final(self).client == old(self).client,
            names_sorted(final(self).services@),
            final(self).services@.to_multiset() == old(self).services@.to_multiset(),
    {
        let mut rest: Vec<(String, ServiceConfig)> = Vec::new();
        std::mem::swap(&mut rest, &mut self.services);
        let ghost all = rest@;
        let n = rest.len();
        let mut sorted: Vec<(String, ServiceConfig)> = Vec::new();
        let mut k: usize = 0;
        assert(all.subrange(0, 0) =~= Seq::<(String, ServiceConfig)>::empty());
        while k < n
            invariant
                n == all.len(),
                k <= n,
                rest@ == all.subrange(k as int, n as int),
                names_sorted(sorted@),
                sorted@.to_multiset() == all.subrange(0, k as int).to_multiset(),
            decreases n - k,
        {
            let item = rest.remove(0);
            proof {
                assert(item == all[k as int]);
                assert(rest@ =~= all.subrange(k + 1, n as int));
                assert(all.subrange(0, k + 1) =~= all.subrange(0, k as int).push(item));
            }
            let mut p: usize = 0;
            while p < sorted.len() && !name_lt(item.0.as_str(), sorted[p].0.as_str())
                invariant
                    p <= sorted.len(),
                    forall|q: int| 0 <= q < p ==> !text_lt(item.0@, #[trigger] sorted@[q].0@),
                decreases sorted.len() - p,
            {
                p = p + 1;
            }
            let ghost before = sorted@;
            sorted.insert(p, item);
            proof {
                assert(sorted@ == before.insert(p as int, item));
                vstd::seq_lib::to_multiset_insert(before, p as int, item);
                vstd::seq_lib::to_multiset_build(all.subrange(0, k as int), item);
                assert forall|i: int, j: int| 0 <= i < j < sorted@.len() implies !text_lt(
                    #[trigger] sorted@[j].0@,
                    #[trigger] sorted@[i].0@,
                ) by {
                    if j < p {
                        assert(sorted@[i] == before[i] && sorted@[j] == before[j]);
                    } else if j == p {
                        assert(sorted@[i] == before[i]);
                    } else if i == p {
                        assert(sorted@[j] == before[j - 1]);
                        if p < before.len() {
                            assert(text_lt(item.0@, before[p as int].0@));
                            if j - 1 > p {
                                assert(!text_lt(before[j - 1].0@, before[p as int].0@));
                            }
                            if text_lt(before[j - 1].0@, item.0@) {
                                if j - 1 == p {
                                    lemma_text_lt_asymmetric(item.0@, before[p as int].0@, 0);
                                } else {
                                    lemma_text_lt_transitive(before[j - 1].0@, item.0@, before[p as int].0@, 0);
                                }
                            }
                        }
                    } else if i < p {
                        assert(sorted@[i] == before[i] && sorted@[j] == before[j - 1]);
                    } else {
                        assert(sorted@[i] == before[i - 1] && sorted@[j] == before[j - 1]);
                    }
                }
            }
            k = k + 1;
        }
        assert(all.subrange(0, n as int) =~= all);
        self.services = sorted;
    }
}

} // verus!

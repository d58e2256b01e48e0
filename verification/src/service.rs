//! Supported services and their common client parameters.
use vstd::prelude::*;

use crate::error::Error;
use crate::text::{concat, owned, str_eq};
use crate::web::{parse_url, url_parse_result};
use crate::traits::{spec_merge_option, merge_option, FromText, ToText};

pub mod bugzilla;
pub mod github;

verus! {

/// Supported service variants.
#[derive(Debug, PartialEq, Eq, Structural, Clone, Copy)]
pub enum ServiceKind {
    /// Targets the REST API v1 provided by bugzilla-5.0 and up.
    Bugzilla,
    /// Targets the GitHub REST API version 2022-11-28.
    Github,
    /// Targets the REST API using the JSON format.
    Redmine,
}

impl ServiceKind {
    /// Name of the service variant.
    pub open spec fn spec_name(self) -> Seq<char> {
        match self {
            ServiceKind::Bugzilla => "bugzilla"@,
            ServiceKind::Github => "github"@,
            ServiceKind::Redmine => "redmine"@,
        }
    }

    /// The default variant.
    pub fn default() -> (r: ServiceKind)
        ensures
            r == ServiceKind::Bugzilla,
    {
        ServiceKind::Bugzilla
    }
}

impl FromText for ServiceKind {
    open spec fn text_ok(s: Seq<char>) -> bool {
        s == "bugzilla"@ || s == "github"@ || s == "redmine"@
    }

    open spec fn text_value(s: Seq<char>, v: ServiceKind) -> bool {
        v.spec_name() == s
    }

    open spec fn text_error(s: Seq<char>) -> Seq<char> {
        "Matching variant not found"@
    }

    fn from_text(s: &str) -> (r: Result<ServiceKind, String>) {
        if str_eq(s, "bugzilla") {
            Ok(ServiceKind::Bugzilla)
        } else if str_eq(s, "github") {
            Ok(ServiceKind::Github)
        } else if str_eq(s, "redmine") {
            Ok(ServiceKind::Redmine)
        } else {
            Err(owned("Matching variant not found"))
        }
    }
}

/// The name of a service variant parses back to that variant.
pub proof fn lemma_kind_text_roundtrip(k: ServiceKind)
    ensures
        ServiceKind::text_ok(k.spec_text()),
        ServiceKind::text_value(k.spec_text(), k),
{
    reveal_strlit("bugzilla");
    reveal_strlit("github");
    reveal_strlit("redmine");
}

impl ToText for ServiceKind {
    open spec fn spec_text(&self) -> Seq<char> {
        self.spec_name()
    }

    fn to_text(&self) -> (s: String) {
        match self {
            ServiceKind::Bugzilla => owned("bugzilla"),
            ServiceKind::Github => owned("github"),
            ServiceKind::Redmine => owned("redmine"),
        }
    }
}

/// Parameters of the HTTP client a service uses; the timeout is in milliseconds.
#[derive(Debug)]
pub struct ClientParameters {
    pub certificate: Option<String>,
    pub concurrent: Option<usize>,
    pub insecure: Option<bool>,
    pub proxy: Option<String>,
    pub timeout: Option<u64>,
}

impl ClientParameters {
    /// Parameters with nothing set.
    pub fn default() -> (r: ClientParameters)
        ensures
            r.certificate is None && r.concurrent is None && r.insecure is None && r.proxy is None
                && r.timeout is None,
    {
        ClientParameters { certificate: None, concurrent: None, insecure: None, proxy: None, timeout: None }
    }

    /// A copy of the parameters.
    pub fn duplicate(&self) -> (r: ClientParameters)
        ensures
            r == *self,
    {
        ClientParameters {
            certificate: crate::text::dup_text(&self.certificate),
            concurrent: self.concurrent,
            insecure: self.insecure,
            proxy: crate::text::dup_text(&self.proxy),
            timeout: self.timeout,
        }
    }

    /// Fills the parameters that are not set from `other`.
    pub fn merge(&mut self, other: ClientParameters)
        ensures
            final(self).certificate == spec_merge_option(old(self).certificate, other.certificate),
            final(self).concurrent == spec_merge_option(old(self).concurrent, other.concurrent),
            final(self).insecure == spec_merge_option(old(self).insecure, other.insecure),
            final(self).proxy == spec_merge_option(old(self).proxy, other.proxy),
            final(self).timeout == spec_merge_option(old(self).timeout, other.timeout),
    {
        let certificate = merge_option(self.certificate.take(), other.certificate);
        let concurrent = merge_option(self.concurrent, other.concurrent);
        let insecure = merge_option(self.insecure, other.insecure);
        let proxy = merge_option(self.proxy.take(), other.proxy);
        let timeout = merge_option(self.timeout, other.timeout);
        *self = ClientParameters { certificate, concurrent, insecure, proxy, timeout };
    }
}

/// Settings an HTTP client is built with.
#[derive(Debug)]
pub struct ClientSettings {
    /// Whether invalid certificates are accepted.
    pub insecure: bool,
    /// Idle connections kept per host.
    pub pool_max_idle: usize,
    /// Request timeout in milliseconds.
    pub timeout: u64,
    /// Proxy URL, checked to parse.
    pub proxy: Option<String>,
    /// Path of an extra root certificate.
    pub certificate: Option<String>,
}

/// Message for a proxy URL that fails to parse.
pub open spec fn invalid_proxy_message(e: Seq<char>) -> Seq<char> {
    "invalid proxy URL: "@ + e
}

impl ClientParameters {
    /// Whether `c` holds the settings the parameters describe.
    pub open spec fn spec_settings(&self, c: ClientSettings) -> bool {
        &&& c.insecure == (self.insecure == Some(true))
        &&& c.pool_max_idle == (match self.concurrent {
            Some(n) => n,
            None => 3,
        })
        &&& c.timeout == (match self.timeout {
            Some(t) => t,
            None => 30000,
        })
        &&& c.proxy == self.proxy
        &&& c.certificate == self.certificate
    }

    /// Settings of the client the parameters describe: certificates are checked unless
    /// asked otherwise, three idle connections are kept per host and requests time out
    /// after 30 seconds unless set; a proxy that is no URL is an invalid value.
    pub fn settings(&self) -> (r: Result<ClientSettings, Error>)
        ensures
            match self.proxy {
                Some(p) => match url_parse_result(p@) {
                    Err(e) => r matches Err(x) && x.is_invalid_value(invalid_proxy_message(e)),
                    Ok(_) => r matches Ok(c) && self.spec_settings(c),
                },
                None => r matches Ok(c) && self.spec_settings(c),
            },
    {
        if let Some(p) = &self.proxy {
            if let Err(e) = parse_url(p.as_str()) {
                return Err(Error::InvalidValue(concat("invalid proxy URL: ", e.as_str())));
            }
        }
        Ok(ClientSettings {
            insecure: match self.insecure {
                Some(b) => b,
                None => false,
            },
            pool_max_idle: match self.concurrent {
                Some(n) => n,
                None => 3,
            },
            timeout: match self.timeout {
                Some(t) => t,
                None => 30000,
            },
            proxy: crate::text::dup_text(&self.proxy),
            certificate: crate::text::dup_text(&self.certificate),
        })
    }
}

} // verus!

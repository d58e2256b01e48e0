//! GitHub service: its config and request creation.
use vstd::prelude::*;

use crate::error::Error;
use crate::service::bugzilla::invalid_base_message;
use crate::service::{ClientParameters, ServiceKind};
use crate::text::{concat, owned, push_char, trim_end_char, trim_end_matches};
use crate::web::{parse_url, url_parse_result};

pub mod search;

verus! {

/// GitHub service config.
#[derive(Debug)]
pub struct Config {
    /// Serialized base URL of the service.
    pub base: String,
    pub token: Option<String>,
    pub client: ClientParameters,
}

impl Config {
    /// A config for the service at `base`: the URL with a single trailing slash, as the
    /// URL parser serializes it; an unparsable URL is an invalid value.
    pub fn new(base: &str) -> (r: Result<Config, Error>)
        ensures
            match url_parse_result(trim_end_char(base@, '/') + seq!['/']) {
                Ok(u) => r matches Ok(c) && c.base@ == u && c.token is None && c.client.certificate is None
                    && c.client.concurrent is None && c.client.insecure is None && c.client.proxy is None
                    && c.client.timeout is None,
                Err(e) => r matches Err(x) && x.is_invalid_value(invalid_base_message(trim_end_char(base@, '/'), e)),
            },
    {
        let trimmed = trim_end_matches(base, '/');
        let mut with_slash = trimmed.clone();
        push_char(&mut with_slash, '/');
        assert(with_slash@ =~= trim_end_char(base@, '/') + seq!['/']);
        match parse_url(with_slash.as_str()) {
            Ok(u) => Ok(Config { base: u, token: None, client: ClientParameters::default() }),
            Err(e) => {
                let a = concat("invalid URL: ", trimmed.as_str());
                let b = concat(a.as_str(), ": ");
                Err(Error::InvalidValue(concat(b.as_str(), e.as_str())))
            },
        }
    }

    /// The kind of service the config is for.
    pub fn kind(&self) -> (r: ServiceKind)
        ensures
            r == ServiceKind::Github,
    {
        ServiceKind::Github
    }
}

/// A GitHub service.
#[derive(Debug)]
pub struct Github {
    pub config: Config,
}

/// Parameters for creating issues; none are supported yet.
#[derive(Debug)]
pub struct CreateParams<'a> {
    service: &'a Github,
}

impl<'a> CreateParams<'a> {
    /// Creation parameters for a service.
    pub fn new(service: &'a Github) -> (r: CreateParams<'a>)
        ensures
            r.spec_service() == service,
    {
        CreateParams { service }
    }

    /// The service the parameters are for.
    pub closed spec fn spec_service(&self) -> &'a Github {
        self.service
    }
}

impl Github {
    /// Create a new service from a base URL.
    pub fn new(base: &str) -> (r: Result<Github, Error>)
        ensures
            match url_parse_result(trim_end_char(base@, '/') + seq!['/']) {
                Ok(u) => r matches Ok(g) && g.config.base@ == u && g.config.token is None,
                Err(e) => r matches Err(x) && x.is_invalid_value(invalid_base_message(trim_end_char(base@, '/'), e)),
            },
    {
        match Config::new(base) {
            Ok(config) => Ok(Github { config }),
            Err(e) => Err(e),
        }
    }

    /// Return the website URL for an item ID.
    pub fn item_url(&self, id: &str) -> (r: String)
        ensures
            r@ == trim_end_char(self.config.base@, '/') + "/issues/"@ + id@,
    {
        let base = trim_end_matches(self.config.base.as_str(), '/');
        let a = concat(base.as_str(), "/issues/");
        concat(a.as_str(), id)
    }

    /// Issue search request with no parameters set.
    pub fn search(&self) -> (r: search::Request<'_>)
        ensures
            r.service == self,
            r.params.order is None,
    {
        search::Request::new(self)
    }
}

} // verus!

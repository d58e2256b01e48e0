//! Settings for the HTTP client that services use.
use vstd::prelude::*;

verus! {

/// Builder of HTTP client settings: a timeout in seconds and whether invalid certificates
/// are accepted.
#[derive(Debug)]
pub struct ClientBuilder {
    pub timeout: u64,
    pub insecure: bool,
}

impl ClientBuilder {
    /// Settings with no timeout and certificate checks on.
    pub fn default() -> (r: ClientBuilder)
        ensures
            r.timeout == 0,
            !r.insecure,
    {
        ClientBuilder { timeout: 0, insecure: false }
    }

    /// Sets the request timeout in seconds.
    pub fn timeout(self, timeout: u64) -> (r: ClientBuilder)
        ensures
            r.timeout == timeout,
            r.insecure == self.insecure,
    {
        ClientBuilder { timeout, insecure: self.insecure }
    }

    /// Sets whether invalid certificates are accepted.
    pub fn insecure(self, insecure: bool) -> (r: ClientBuilder)
        ensures
            r.timeout == self.timeout,
            r.insecure == insecure,
    {
        ClientBuilder { timeout: self.timeout, insecure }
    }
}

/// Settings every client starts from: a thirty second timeout.
pub fn builder() -> (r: ClientBuilder)
    ensures
        r.timeout == 30,
        !r.insecure,
{
    ClientBuilder::default().timeout(30)
}

} // verus!

//! Errors raised by the library.
use vstd::prelude::*;

use crate::text::{concat, nat_digits, owned};

verus! {

/// REST API error reported by a Bugzilla service.
#[derive(Debug)]
pub struct BugzillaServiceError {
    pub message: String,
    pub code: i32,
}

/// An HTTP response status: a code from 100 to 999.
#[derive(Debug, Clone, Copy)]
pub struct HttpStatus {
    code: u16,
}

impl HttpStatus {
    #[verifier::type_invariant]
    spec fn in_range(self) -> bool {
        100 <= self.code <= 999
    }

    /// The numeric code.
    pub closed spec fn spec_code(self) -> u16 {
        self.code
    }

    /// The status with the given code, when it is one from 100 to 999.
    pub fn new(code: u16) -> (r: Option<HttpStatus>)
        ensures
            (100 <= code <= 999) <==> r is Some,
            r matches Some(s) ==> s.spec_code() == code,
    {
        if 100 <= code && code <= 999 {
            Some(HttpStatus { code })
        } else {
            None
        }
    }

    /// The numeric code.
    pub fn code(&self) -> (r: u16)
        ensures
            r == self.spec_code(),
            100 <= r <= 999,
    {
        proof {
            use_type_invariant(self);
        }
        self.code
    }

    /// Display text of the status: its code, a space and its reason phrase, or
    /// `<unknown status code>` for a code without one.
    pub open spec fn spec_text(self) -> Seq<char> {
        nat_digits(self.spec_code() as nat) + " "@ + match canonical_reason(self.spec_code()) {
            Some(r) => r,
            None => "<unknown status code>"@,
        }
    }

    /// Display text of the status.
    pub fn text(&self) -> (r: String)
        ensures
            r@ == self.spec_text(),
    {
        status_display(self.code())
    }
}

/// Reason phrase that the `http` crate gives a status code, if it knows one.
pub uninterp spec fn canonical_reason(code: u16) -> Option<Seq<char>>;

/// `reqwest::StatusCode::from_u16` (the `http` crate's status code) followed by its
/// `Display`. Claimed: the text is the code, a space and the code's canonical reason
/// phrase, or `<unknown status code>` when the crate knows none; the phrase itself is the
/// name `canonical_reason` of the code.
#[verifier::external_body]
fn status_display(code: u16) -> (r: String)
    requires
        100 <= code <= 999,
    ensures
        r@ == nat_digits(code as nat) + " "@ + match canonical_reason(code) {
            Some(r) => r,
            None => "<unknown status code>"@,
        },
{
    reqwest::StatusCode::from_u16(code).unwrap().to_string()
}

/// Errors reported by the services a client talks to.
#[derive(Debug)]
pub enum ServiceError {
    Bugzilla(BugzillaServiceError),
}

/// Library errors.
#[derive(Debug)]
pub enum Error {
    Auth,
    Config(String),
    EmptyParams,
    Http(HttpStatus),
    InvalidUrl(String),
    InvalidRequest(String),
    InvalidResponse(String),
    InvalidValue(String),
    IO(String),
    Service(ServiceError),
    Request(String),
    Timeout,
}

impl Error {
    /// Whether the error is an invalid value error carrying the given message.
    pub open spec fn is_invalid_value(self, msg: Seq<char>) -> bool {
        self matches Error::InvalidValue(m) && m@ == msg
    }

    /// Whether the error is an invalid request error carrying the given message.
    pub open spec fn is_invalid_request(self, msg: Seq<char>) -> bool {
        self matches Error::InvalidRequest(m) && m@ == msg
    }

    /// Text shown for the error.
    pub open spec fn spec_message(self) -> Seq<char> {
        match self {
            Error::Auth => "authentication required"@,
            Error::Config(m) => m@,
            Error::EmptyParams => "no parameters specified"@,
            Error::Http(status) => "client request failed ("@ + status.spec_text() + ")"@,
            Error::InvalidUrl(m) => "invalid URL: "@ + m@,
            Error::InvalidRequest(m) => m@,
            Error::InvalidResponse(m) => "failed to parse response: "@ + m@,
            Error::InvalidValue(m) => m@,
            Error::IO(m) => m@,
            Error::Service(ServiceError::Bugzilla(e)) => e.message@,
            Error::Request(m) => m@,
            Error::Timeout => "request timed out"@,
        }
    }

    /// Text shown for the error.
    pub fn message(&self) -> (s: String)
        ensures
            s@ == self.spec_message(),
    {
        match self {
            Error::Auth => owned("authentication required"),
            Error::Config(m) => m.clone(),
            Error::EmptyParams => owned("no parameters specified"),
            Error::Http(status) => {
                let s = concat("client request failed (", status.text().as_str());
                concat(s.as_str(), ")")
            },
            Error::InvalidUrl(m) => concat("invalid URL: ", m.as_str()),
            Error::InvalidRequest(m) => m.clone(),
            Error::InvalidResponse(m) => concat("failed to parse response: ", m.as_str()),
            Error::InvalidValue(m) => m.clone(),
            Error::IO(m) => m.clone(),
            Error::Service(ServiceError::Bugzilla(e)) => e.message.clone(),
            Error::Request(m) => m.clone(),
            Error::Timeout => owned("request timed out"),
        }
    }
}

} // verus!

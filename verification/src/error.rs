//! The errors that building a request or assembling a response can give.
use vstd::prelude::*;

verus! {

/// The request methods that a request can name.
#[derive(Clone, Copy, Debug, PartialEq, Eq, Structural)]
pub enum Method {
    Get,
    Post,
    Put,
    Delete,
    Head,
    Options,
    Patch,
    Trace,
    Connect,
}

/// Why a request was refused before any transfer.
#[derive(Clone, Copy, Debug, PartialEq, Eq, Structural)]
pub enum RequestFault {
    /// The request header at this position holds a value that is not
    /// visible text.
    InvalidHeaderValue(usize),
    /// The client already holds a request.
    AlreadyRequested,
    /// The client holds no request yet.
    NoRequest,
}

/// Why a response could not be assembled.
#[derive(Clone, Copy, Debug, PartialEq, Eq, Structural)]
pub enum HttpFault {
    /// The status code lies outside the range of HTTP status codes.
    InvalidStatusCode,
}

/// An error of the client. Failures that the engine reports carry the
/// engine's own error code.
#[derive(Clone, Copy, Debug, PartialEq, Eq, Structural)]
pub enum Error {
    /// The engine refused an option or could not answer a query.
    Curl(u32),
    /// The response could not be assembled.
    Http(HttpFault),
    /// The transfer itself failed.
    Perform(u32),
    /// The request was refused.
    Other(RequestFault),
    /// The request names a method that is not implemented.
    Unimplemented(Method),
}

impl Error {
    /// A short description of the kind of error.
    pub fn message(&self) -> (text: &'static str)
        ensures
            text@ == match *self {
                Error::Curl(_) => "the transfer engine refused an option or a query"@,
                Error::Http(HttpFault::InvalidStatusCode) => "invalid status code"@,
                Error::Perform(_) => "the transfer failed"@,
                Error::Other(RequestFault::InvalidHeaderValue(_)) => "invalid header value"@,
                Error::Other(RequestFault::AlreadyRequested) => "a request is already attached"@,
                Error::Other(RequestFault::NoRequest) => "no request is attached"@,
                Error::Unimplemented(_) => "request method not implemented"@,
            },
    {
        match self {
            Error::Curl(_) => "the transfer engine refused an option or a query",
            Error::Http(HttpFault::InvalidStatusCode) => "invalid status code",
            Error::Perform(_) => "the transfer failed",
            Error::Other(RequestFault::InvalidHeaderValue(_)) => "invalid header value",
            Error::Other(RequestFault::AlreadyRequested) => "a request is already attached",
            Error::Other(RequestFault::NoRequest) => "no request is attached",
            Error::Unimplemented(_) => "request method not implemented",
        }
    }
}

} // verus!

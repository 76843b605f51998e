//! Errors reported by the compute core.

use vstd::prelude::*;

verus! {

/// What went wrong in a lookup, a version negotiation or a request.
#[derive(Clone, Debug, PartialEq, Eq)]
pub enum Error {
    /// No resource has the given identifier or name.
    NotFound(String),
    /// More than one resource carries the given name.
    AmbiguousResult(String),
    /// The service's supported API versions are unknown.
    DiscoveryError(String),
    /// Any other failure of the transport, with its HTTP status where there is one.
    TransportError { status: Option<u16>, message: String },
    /// A response body did not have the expected shape.
    DecodeError(String),
}

impl Error {
    /// The error for a failed HTTP exchange: `NotFound` exactly where the
    /// service answered 404, a `TransportError` keeping the status otherwise.
    pub fn from_status(status: Option<u16>, message: String) -> (r: Error)
        ensures
            r is NotFound <==> status == Some(404u16),
            r matches Error::NotFound(m) ==> m == message,
            !(r is NotFound) ==> r == (Error::TransportError { status, message }),
    {
        match status {
            Some(404) => Error::NotFound(message),
            _ => Error::TransportError { status, message },
        }
    }
}

} // verus!

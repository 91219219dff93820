//! The error taxonomy: the closed set of failure kinds that every operation
//! of the client can return.

use vstd::prelude::*;
use vstd::string::StringExecFns;

verus! {

/// One failure kind for each way an operation can go wrong. The kinds are
/// mutually exclusive and each carries the triggering detail. No operation
/// panics on a remote or local failure: every failure is returned as one of
/// these values.
#[derive(Debug, PartialEq)]
pub enum Error {
    /// The remote answered with a status code other than the one expected
    /// for the operation. The enclosed value is the actual status code.
    BadStatus(u16),
    /// The transport could not complete the HTTP exchange (DNS, connection
    /// refused or reset, timeout).
    NetworkFailure(String),
    /// A local I/O operation failed, such as draining a response body.
    IOFailure(String),
    /// A request or response body could not be converted to or from the
    /// wire format.
    DecodeFailure(String),
}

/// What `Error::message` returns: a fixed text for the kind, followed by
/// the enclosed detail where the kind carries one.
pub open spec fn message_spec(e: Error) -> Seq<char> {
    match e {
        Error::BadStatus(_) => "response included an unexpected status code"@,
        Error::NetworkFailure(d) => "network error: "@ + d@,
        Error::IOFailure(d) => "io error: "@ + d@,
        Error::DecodeFailure(d) => "decode error: "@ + d@,
    }
}

impl Error {
    /// A human-readable description of the failure.
    pub fn message(&self) -> (r: String)
        ensures
            r@ == message_spec(*self),
    {
        match self {
            Error::BadStatus(_) => String::from_str("response included an unexpected status code"),
            Error::NetworkFailure(d) => {
                let mut s = String::from_str("network error: ");
                s.append(d.as_str());
                s
            },
            Error::IOFailure(d) => {
                let mut s = String::from_str("io error: ");
                s.append(d.as_str());
                s
            },
            Error::DecodeFailure(d) => {
                let mut s = String::from_str("decode error: ");
                s.append(d.as_str());
                s
            },
        }
    }
}

} // verus!

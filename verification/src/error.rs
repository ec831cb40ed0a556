//! Shared error vocabulary for every component of the crate.

use vstd::prelude::*;

verus! {

/// Result and error taxonomy of the whole system.
///
/// - `Network`: the transport failed or timed out; carries the transport's message.
/// - `Json`: a payload could not be decoded; carries the decoder's message.
/// - `Protocol`: a response arrived but is malformed or misses expected fields.
/// - `Server`: the remote explicitly reported an error; carries the first message.
/// - `Value`: a well-formed response signalled a logical rejection
///   (bad credentials, device not found).
#[derive(Debug)]
pub enum Error {
    Network(String),
    Json(String),
    Protocol,
    Server(String),
    Value,
}

impl Error {
    /// Two errors are alike when they are the same variant carrying the same text.
    pub open spec fn alike(self, other: Error) -> bool {
        match (self, other) {
            (Error::Network(a), Error::Network(b)) => a@ == b@,
            (Error::Json(a), Error::Json(b)) => a@ == b@,
            (Error::Protocol, Error::Protocol) => true,
            (Error::Server(a), Error::Server(b)) => a@ == b@,
            (Error::Value, Error::Value) => true,
            _ => false,
        }
    }
}

impl PartialEq for Error {
    fn eq(&self, other: &Error) -> (r: bool) {
        match (self, other) {
            (Error::Network(a), Error::Network(b)) => a.eq(b),
            (Error::Json(a), Error::Json(b)) => a.eq(b),
            (Error::Protocol, Error::Protocol) => true,
            (Error::Server(a), Error::Server(b)) => a.eq(b),
            (Error::Value, Error::Value) => true,
            _ => false,
        }
    }
}

impl vstd::std_specs::cmp::PartialEqSpecImpl for Error {
    open spec fn obeys_eq_spec() -> bool {
        true
    }

    open spec fn eq_spec(&self, other: &Error) -> bool {
        self.alike(*other)
    }
}

} // verus!

//! What came back from one request to an upstream endpoint.
use vstd::prelude::*;
use crate::error::Error;

verus! {

/// The outcome of one request: a payload read into its expected shape, or
/// the reason there is none.
pub enum Fetched<T> {
    /// The endpoint answered with a payload of the expected shape.
    Payload(T),
    /// The endpoint could not be reached; the transport's message.
    Unreachable(String),
    /// The endpoint answered with something that could not be read; the reader's message.
    Unreadable(String),
}

impl<T> Fetched<T> {
    /// The payload, or `Fetch` for a transport failure and `Response` for an
    /// unreadable answer.
    pub open spec fn spec_result(self) -> Result<T, Error> {
        match self {
            Fetched::Payload(t) => Ok(t),
            Fetched::Unreachable(m) => Err(Error::Fetch { message: m }),
            Fetched::Unreadable(m) => Err(Error::Response { message: m }),
        }
    }

    /// Classifies the outcome into the payload or a typed error.
    pub fn into_result(self) -> (r: Result<T, Error>)
        ensures
            r == self.spec_result(),
    {
        match self {
            Fetched::Payload(t) => Ok(t),
            Fetched::Unreachable(m) => Err(Error::Fetch { message: m }),
            Fetched::Unreadable(m) => Err(Error::Response { message: m }),
        }
    }
}

} // verus!

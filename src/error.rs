//! The errors of this library.

use vstd::prelude::*;

verus! {

#[verifier::external_type_specification]
#[verifier::external_body]
pub struct ExIoError(std::io::Error);

/// The error that the host's stream primitives report; it carries no detail.
#[derive(Debug)]
pub struct StreamError {}

/// The kinds of failure that this library reports.
#[derive(Debug)]
pub enum AdapterError {
    /// An `http` value could not be built or parsed.
    Http(http::Error),
    /// A local byte stream failed.
    Io(std::io::Error),
    /// The host's stream primitive failed.
    WasiStream(StreamError),
    /// The host reported failure without detail.
    Other(&'static str),
}

impl AdapterError {
    pub fn other(msg: &'static str) -> (r: Self)
        ensures
            r == AdapterError::Other(msg),
    {
        AdapterError::Other(msg)
    }
}

} // verus!

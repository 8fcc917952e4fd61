//! The two fatal failures a prompt read can end with.

use vstd::prelude::*;

verus! {

/// Declares `std::io::Error` so that a stream failure can be carried in this
/// crate's error type. The value stays opaque to the verifier.
#[verifier::external_type_specification]
#[verifier::external_body]
pub struct ExIoError(std::io::Error);

/// Declares `tokio::task::JoinError`, the failure of an execution lane that
/// ran an offloaded blocking call, so that it can be carried in this crate's
/// error type. The value stays opaque to the verifier.
#[verifier::external_type_specification]
#[verifier::external_body]
pub struct ExJoinError(tokio::task::JoinError);

/// Why an interactive read was aborted: either the terminal stream itself
/// failed, or the execution lane running the blocking read failed. The two
/// are kept apart so a caller can tell the terminal misbehaving from the
/// scheduling mechanism misbehaving.
#[derive(Debug)]
pub enum Error {
    Io(std::io::Error),
    Join(tokio::task::JoinError),
}

impl Error {
    /// True exactly when the terminal stream failed.
    pub fn is_io(&self) -> (r: bool)
        ensures
            r == (self is Io),
    {
        match self {
            Error::Io(_) => true,
            Error::Join(_) => false,
        }
    }

    /// True exactly when the execution lane failed.
    pub fn is_join(&self) -> (r: bool)
        ensures
            r == (self is Join),
    {
        match self {
            Error::Io(_) => false,
            Error::Join(_) => true,
        }
    }
}

} // verus!

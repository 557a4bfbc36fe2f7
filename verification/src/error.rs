//! The errors of the client.

use vstd::prelude::*;
use vstd::std_specs::convert::IntoSpec;
use std::time::Duration;
use crate::codec::Cmd;

verus! {

#[verifier::external_type_specification]
#[verifier::external_body]
pub struct ExIoError(std::io::Error);

#[derive(Debug)]
pub enum Error {
    /// A Non-Specific internal error than prevented and operation from completing
    Internal(String),
    /// An IO error
    IO(std::io::Error),
    /// An parsing/serialising error occurred
    Value(String, Option<Cmd>),
    /// An critical Unexpected Error
    Unexpected(String),
    /// End of Stream connection is broken
    EndOfStream,
    /// receive error during reconnecting
    NotConnected,
    /// Cancel all writers after connection get dropped
    Disconnected,
    /// Remote error
    Remote(String),
    /// Processing error on Handler
    Processing(Duration, String),
}

/// An internal error with the given text.
pub fn internal<T: Into<String>>(msg: T) -> (r: Error)
    ensures
        r matches Error::Internal(s) && (T::obeys_into_spec() ==> s == msg.into_spec()),
{
    Error::Internal(msg.into())
}

/// A value error with the given text and the command it concerns.
pub fn value<T: Into<String>>(msg: T, val: Cmd) -> (r: Error)
    ensures
        r matches Error::Value(s, Some(c)) && c == val && (T::obeys_into_spec() ==> s
            == msg.into_spec()),
{
    Error::Value(msg.into(), Some(val))
}

impl From<std::io::Error> for Error {
    fn from(err: std::io::Error) -> (r: Error) {
        Error::IO(err)
    }
}

impl vstd::std_specs::convert::FromSpecImpl<std::io::Error> for Error {
    open spec fn obeys_from_spec() -> bool {
        true
    }

    open spec fn from_spec(err: std::io::Error) -> Error {
        Error::IO(err)
    }
}

/// Calls `std::error::Error::description` on an I/O error: its short text.
/// The text comes from the standard library, so nothing is said of it.
#[verifier::external_body]
#[allow(deprecated)]
fn io_description(err: &std::io::Error) -> &str {
    std::error::Error::description(err)
}

impl Error {
    /// The short text of the error: its own text, or for the errors without
    /// one, a fixed text.
    pub fn description(&self) -> (r: &str)
        ensures
            match self {
                Error::IO(_) => true,
                Error::Value(s, _) => r@ == s@,
                Error::Unexpected(s) => r@ == s@,
                Error::Internal(s) => r@ == s@,
                Error::EndOfStream => r@ == "End of Stream"@,
                Error::Remote(s) => r@ == s@,
                Error::NotConnected => r@ == "Not Connected"@,
                Error::Disconnected => r@ == "Disconnected"@,
                Error::Processing(_, s) => r@ == s@,
            },
    {
        match self {
            Error::IO(err) => io_description(err),
            Error::Value(s, _) => s.as_str(),
            Error::Unexpected(s) => s.as_str(),
            Error::Internal(s) => s.as_str(),
            Error::EndOfStream => "End of Stream",
            Error::Remote(s) => s.as_str(),
            Error::NotConnected => "Not Connected",
            Error::Disconnected => "Disconnected",
            Error::Processing(_, s) => s.as_str(),
        }
    }

    /// The error underneath: the I/O error for `IO`, none for the others.
    pub fn cause(&self) -> (r: Option<&std::io::Error>)
        ensures
            match self {
                Error::IO(e) => r == Some(e),
                _ => r is None,
            },
    {
        match self {
            Error::IO(err) => Some(err),
            _ => None,
        }
    }
}

} // verus!

//! The error of a serve cycle.

use crate::request::RequestDecodeError;
use vstd::prelude::*;
use vstd::std_specs::convert::FromSpecImpl;

verus! {

/// Why a serve cycle failed. Every failure is wrapped into this one type,
/// which carries the cause as far as this library knows it.
#[derive(Clone, Copy, Debug, PartialEq, Eq, Structural)]
pub struct Error(Option<RequestDecodeError>);

impl View for Error {
    /// The cause: the decode error for a message that was no request, and
    /// `None` for a failure that arose outside of this library, on the
    /// transport or in the byte-level codec.
    type V = Option<RequestDecodeError>;

    closed spec fn view(&self) -> Option<RequestDecodeError> {
        self.0
    }
}

impl Error {
    /// The error for a failure of the transport or of the byte-level codec.
    pub fn other() -> (error: Error)
        ensures
            error@ is None,
    {
        Error(None)
    }

    /// The decode error that this error wraps, if it wraps one.
    pub fn cause(&self) -> (cause: Option<RequestDecodeError>)
        ensures
            cause == self@,
    {
        self.0
    }
}

impl From<RequestDecodeError> for Error {
    fn from(error: RequestDecodeError) -> (wrapped: Error)
        ensures
            wrapped@ == Some(error),
    {
        Error(Some(error))
    }
}

impl FromSpecImpl<RequestDecodeError> for Error {
    open spec fn obeys_from_spec() -> bool {
        true
    }

    closed spec fn from_spec(error: RequestDecodeError) -> Error {
        Error(Some(error))
    }
}

} // verus!

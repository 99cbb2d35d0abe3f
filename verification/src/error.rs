//! The adapter's own failure: a transport-level error.

use vstd::prelude::*;

verus! {

/// The HTTP/2 error code of an endpoint's unexpected internal error.
pub const INTERNAL_ERROR: u32 = 2;

/// A failure signalled by the transport instead of by a response, told by its
/// HTTP/2 error code: the number that `h2::Reason` wraps.
#[derive(Clone, Copy, Debug, PartialEq, Eq, Structural)]
pub struct Error {
    pub reason: u32,
}

/// The number of `h2::Reason::INTERNAL_ERROR`, which is 2.
#[verifier::external_body]
fn h2_internal_error() -> (code: u32)
    ensures
        code == INTERNAL_ERROR,
{
    h2::Reason::INTERNAL_ERROR.into()
}

impl Error {
    /// The one failure the adapter ever reports: an internal error.
    pub fn internal() -> (error: Error)
        ensures
            error == (Error { reason: INTERNAL_ERROR }),
    {
        Error { reason: h2_internal_error() }
    }
}

} // verus!

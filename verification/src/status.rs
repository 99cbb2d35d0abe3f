//! Status codes of responses.

use vstd::prelude::*;

verus! {

/// The status that answers a server-side fault.
pub const INTERNAL_SERVER_ERROR: u16 = 500;

/// A status code of a response: a number from 100 up to 599.
///
/// A value of this type always holds a number that `http::StatusCode` takes.
#[derive(Clone, Copy, Debug, PartialEq, Eq, Structural)]
pub struct StatusCode {
    code: u16,
}

/// The error of [`StatusCode::from_u16`]: the number is no status code.
#[derive(Clone, Copy, Debug, PartialEq, Eq, Structural)]
pub struct InvalidStatusCode {}

/// Whether `code` is the number of a status code.
pub open spec fn is_status_code(code: int) -> bool {
    100 <= code < 600
}

impl View for StatusCode {
    type V = u16;

    closed spec fn view(&self) -> u16 {
        self.code
    }
}

/// Asks `http::StatusCode::from_u16` whether it takes `code`. It takes the
/// numbers from 100 up to 599 and refuses every other.
#[verifier::external_body]
fn http_takes(code: u16) -> (taken: bool)
    ensures
        taken == is_status_code(code as int),
{
    http::StatusCode::from_u16(code).is_ok()
}

/// The number of `http::StatusCode::INTERNAL_SERVER_ERROR`, which is 500.
#[verifier::external_body]
fn http_internal_server_error() -> (code: u16)
    ensures
        code == INTERNAL_SERVER_ERROR,
{
    http::StatusCode::INTERNAL_SERVER_ERROR.as_u16()
}

impl StatusCode {
    #[verifier::type_invariant]
    spec fn in_range(self) -> bool {
        is_status_code(self.code as int)
    }

    /// The status code with the number `src`, if there is one.
    pub fn from_u16(src: u16) -> (r: Result<StatusCode, InvalidStatusCode>)
        ensures
            r is Ok <==> is_status_code(src as int),
            r matches Ok(status) ==> status@ == src,
    {
        if http_takes(src) {
            Ok(StatusCode { code: src })
        } else {
            Err(InvalidStatusCode {  })
        }
    }

    /// The number of this status code.
    pub fn as_u16(&self) -> (code: u16)
        ensures
            code == self@,
            is_status_code(code as int),
    {
        proof {
            use_type_invariant(self);
        }
        self.code
    }

    /// The status code 500, Internal Server Error.
    pub fn internal_server_error() -> (status: StatusCode)
        ensures
            status@ == INTERNAL_SERVER_ERROR,
    {
        StatusCode { code: http_internal_server_error() }
    }
}

/// Two status codes with the same number are the same status code.
pub proof fn lemma_status_code_by_number(a: StatusCode, b: StatusCode)
    requires
        a@ == b@,
    ensures
        a == b,
{
}

} // verus!

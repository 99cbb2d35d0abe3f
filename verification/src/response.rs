//! The response that stands in for a failure.

use crate::status::StatusCode;
use vstd::prelude::*;

verus! {

/// The name of the header that gives a body's length.
pub open spec fn content_length() -> Seq<char> {
    "content-length"@
}

/// One header field.
#[derive(Debug, PartialEq, Eq)]
pub struct Header {
    pub name: String,
    pub value: String,
}

impl View for Header {
    type V = (Seq<char>, Seq<char>);

    open spec fn view(&self) -> (Seq<char>, Seq<char>) {
        (self.name@, self.value@)
    }
}

/// A response head with its body.
#[derive(Debug, PartialEq, Eq)]
pub struct Response<B> {
    pub status: StatusCode,
    pub headers: Vec<Header>,
    pub body: B,
}

/// The text of `http::header::CONTENT_LENGTH`, which is `content-length`.
#[verifier::external_body]
fn http_content_length() -> (name: String)
    ensures
        name@ == content_length(),
{
    http::header::CONTENT_LENGTH.as_str().to_owned()
}

impl<B: Default> Response<B> {
    /// Whether this response says nothing but its status: its one header is
    /// `content-length: 0` and its body is the body type's default.
    pub open spec fn is_empty(self) -> bool {
        &&& self.headers@.len() == 1
        &&& self.headers@[0]@ == (content_length(), "0"@)
        &&& B::default.ensures((), self.body)
    }

    /// The empty response with the given status.
    pub fn empty(status: StatusCode) -> (response: Self)
        ensures
            response.status == status,
            response.is_empty(),
    {
        let length = Header { name: http_content_length(), value: "0".to_owned() };
        Response { status, headers: vec![length], body: B::default() }
    }
}

} // verus!

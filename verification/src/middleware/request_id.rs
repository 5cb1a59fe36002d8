//! Marks requests and responses with an ID.

use vstd::prelude::*;

use crate::headers;
use crate::headers::HeaderError;

verus! {

/// The ID of a request, in its text form.
#[derive(Debug, PartialEq, Eq)]
pub struct RequestId(pub String);

impl Clone for RequestId {
    fn clone(&self) -> (copy: Self)
        ensures
            copy == *self,
    {
        RequestId(self.0.clone())
    }
}

impl RequestId {
    pub fn as_str(&self) -> (text: &str)
        ensures
            text@ == self.0@,
    {
        self.0.as_str()
    }
}

/// Sets the ID in the headers of a request or a response.
pub fn middleware(id: &RequestId, message_headers: &mut http::HeaderMap<http::HeaderValue>) -> (result:
    Result<(), HeaderError>)
    ensures
        headers::header_is_set(
            headers::header_fields(*old(message_headers)),
            headers::X_REQUEST_ID@,
            id.0@,
            result,
            headers::header_fields(*final(message_headers)),
        ),
        result is Ok ==> headers::first_value(
            headers::header_fields(*final(message_headers)),
            "x-request-id"@,
        ) == Some(vstd::utf8::encode_utf8(id.0@)),
{
    proof {
        headers::known_names();
    }
    headers::set_header(message_headers, headers::X_REQUEST_ID, id.0.as_str())
}

/// A request and its response are marked with the same ID, whatever headers they had before.
pub proof fn response_carries_the_request_id(
    id: RequestId,
    request_before: Map<Seq<char>, Seq<Seq<u8>>>,
    request_after: Map<Seq<char>, Seq<Seq<u8>>>,
    response_before: Map<Seq<char>, Seq<Seq<u8>>>,
    response_after: Map<Seq<char>, Seq<Seq<u8>>>,
)
    requires
        headers::header_is_set(
            request_before,
            headers::X_REQUEST_ID@,
            id.0@,
            Ok(()),
            request_after,
        ),
        headers::header_is_set(
            response_before,
            headers::X_REQUEST_ID@,
            id.0@,
            Ok(()),
            response_after,
        ),
    ensures
        request_after[headers::X_REQUEST_ID@] == response_after[headers::X_REQUEST_ID@],
        headers::first_value(response_after, headers::X_REQUEST_ID@) == Some(
            vstd::utf8::encode_utf8(id.0@),
        ),
        headers::first_value(request_after, headers::X_REQUEST_ID@) == headers::first_value(
            response_after,
            headers::X_REQUEST_ID@,
        ),
{
}

} // verus!

//! The last stage of the pipeline: what the client is shown when a handler
//! failed.
//!
//! Every response gets a request id, under which the request is logged. If
//! the handler failed, the client receives the status and the category of
//! the failure together with that id, and nothing of the internal error.

use vstd::prelude::*;
use crate::error::{ClientError, Error};

verus! {

/// The response that replaces a failed handler's. It is sent with `status`
/// and the JSON body `{"error": {"type": <client_error>, "requestId":
/// <request_id>}}`.
#[derive(Debug, PartialEq, Eq)]
pub struct ClientErrorResponse {
    pub status: u16,
    pub client_error: ClientError,
    pub request_id: String,
}

/// The outcome of the response mapper: the id under which the request is
/// logged, and the response that goes out in place of the handler's, if any.
#[derive(Debug, PartialEq, Eq)]
pub struct MappedResponse {
    pub request_id: String,
    pub error_response: Option<ClientErrorResponse>,
}

pub open spec fn is_lower_hex(c: char) -> bool {
    ('0' <= c && c <= '9') || ('a' <= c && c <= 'f')
}

/// The text of a random (version 4) UUID: 32 lower-case hexadecimal digits
/// in groups of 8, 4, 4, 4 and 12, with a hyphen between groups. The third
/// group starts with the version, the fourth with the variant.
pub open spec fn is_request_id(id: Seq<char>) -> bool {
    &&& id.len() == 36
    &&& forall|i: int|
        0 <= i < 36 ==> if i == 8 || i == 13 || i == 18 || i == 23 {
            #[trigger] id[i] == '-'
        } else {
            is_lower_hex(id[i])
        }
    &&& id[14] == '4'
    &&& (id[19] == '8' || id[19] == '9' || id[19] == 'a' || id[19] == 'b')
}

/// Whether `response` is what a client is shown for `service_error` under
/// the given request id: nothing if the handler succeeded, else the status
/// and category of the error, and the id.
pub open spec fn is_error_response_for(
    response: Option<ClientErrorResponse>,
    service_error: Option<Error>,
    request_id: Seq<char>,
) -> bool {
    match service_error {
        None => response is None,
        Some(e) => {
            &&& response matches Some(shown)
            &&& shown.status == e.client_status_and_error_spec().0
            &&& shown.client_error == e.client_status_and_error_spec().1
            &&& shown.request_id@ == request_id
        },
    }
}

/// A fresh request id. Calls `uuid::Uuid::new_v4` and formats the result
/// with `to_string`. Not proved: the text is a hyphenated lower-case UUID of
/// version 4 in the RFC variant, which is what `new_v4` builds and what the
/// `Display` of `Uuid` writes. Which one is left to chance. `new_v4` panics
/// if the operating system hands out no random bytes.
#[verifier::external_body]
fn new_request_id() -> (request_id: String)
    ensures
        is_request_id(request_id@),
{
    uuid::Uuid::new_v4().to_string()
}

/// The response to show for the outcome of a handler, under a given request
/// id.
pub fn client_error_response(
    service_error: Option<Error>,
    request_id: &str,
) -> (shown: Option<ClientErrorResponse>)
    ensures
        is_error_response_for(shown, service_error, request_id@),
{
    match service_error {
        None => None,
        Some(e) => {
            let (status, client_error) = e.client_status_and_error();
            Some(ClientErrorResponse { status, client_error, request_id: request_id.to_owned() })
        },
    }
}

/// Maps the outcome of a handler to what the client is shown, under a fresh
/// request id.
pub fn main_response_mapper(service_error: Option<Error>) -> (mapped: MappedResponse)
    ensures
        is_request_id(mapped.request_id@),
        is_error_response_for(mapped.error_response, service_error, mapped.request_id@),
{
    let request_id = new_request_id();
    let error_response = client_error_response(service_error, request_id.as_str());
    MappedResponse { request_id, error_response }
}

} // verus!

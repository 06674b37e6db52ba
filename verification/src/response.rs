//! Classification of HTTP responses.
//!
//! Both the issuer and the bot API answer every request with a status code
//! and a body. A 2xx status hands the body on for decoding into the
//! operation's success type; any other status turns the body — the
//! service's error payload, an opaque JSON document — verbatim into the
//! typed failure of the endpoint that was called. No other outcome exists:
//! an operation either fully succeeds or fails with one specific error
//! kind.

use vstd::prelude::*;

use crate::error::Error;

verus! {

/// Whether `status` is an HTTP success (2xx) code.
pub open spec fn spec_is_success(status: u16) -> bool {
    200 <= status < 300
}

/// Decides whether an HTTP status code counts as success.
pub fn is_success(status: u16) -> (r: bool)
    ensures
        r == spec_is_success(status),
{
    200 <= status && status < 300
}

/// Classifies a bot API response: a 2xx status hands the body on for
/// decoding, any other status fails with the body as the API's error
/// payload.
pub fn classify_api_response(status: u16, body: String) -> (r: Result<String, Error>)
    ensures
        spec_is_success(status) ==> r == Result::<String, Error>::Ok(body),
        !spec_is_success(status) ==> r == Result::<String, Error>::Err(Error::Api(body)),
{
    if is_success(status) {
        Result::Ok(body)
    } else {
        Result::Err(Error::Api(body))
    }
}

/// Classifies an issuer response: a 2xx status hands the body on for
/// decoding into a token, any other status fails with the body as the
/// issuer's error payload.
pub fn classify_issuer_response(status: u16, body: String) -> (r: Result<String, Error>)
    ensures
        spec_is_success(status) ==> r == Result::<String, Error>::Ok(body),
        !spec_is_success(status) ==> r == Result::<String, Error>::Err(Error::Auth(body)),
{
    if is_success(status) {
        Result::Ok(body)
    } else {
        Result::Err(Error::Auth(body))
    }
}

} // verus!

//! Interpretation of the metadata endpoint's answers.
//!
//! The driver performs the HTTP requests; what it observed of each one is
//! reported here as a [`RawResponse`], and the functions of this module
//! decide, exactly as the client's rules say, what the observation means: a
//! trimmed value, a fixed failure message for a non-success status, or the
//! driver's own reason passed through.

use vstd::prelude::*;
use crate::text::trim;
use crate::text::trim_ws;

verus! {

/// What the driver observed of one request to the metadata endpoint.
pub enum RawResponse {
    /// The request got a success status, with this body decoded as text.
    Body { text: String },
    /// The request reached the endpoint but got a non-success status.
    BadStatus,
    /// The request could not be performed, or its body was not valid text;
    /// the driver's description of why.
    Failed { why: String },
}

/// Outcome of a single metadata fetch.
#[derive(Debug, PartialEq, Eq)]
pub enum QueryResult {
    Success { value: String },
    Error { reason: String },
}

/// The reason reported when the endpoint answers a metadata query for
/// `path` with a non-success status.
pub open spec fn fetch_failure_reason(path: Seq<char>) -> Seq<char> {
    "Failed to get data for "@ + path + "."@
}

/// The error reported when the endpoint answers the token request with a
/// non-success status.
pub open spec fn token_failure_reason() -> Seq<char> {
    "Failed to get token."@
}

/// Turn the endpoint's answer to one authenticated metadata query into the
/// query's outcome: a success status yields the trimmed body; a non-success
/// status yields the fixed per-path failure reason; a request that could
/// not be performed reports the driver's reason. Never fails: every answer
/// becomes a [`QueryResult`].
pub fn interpret_metadata_response(path: &String, resp: RawResponse) -> (r: QueryResult)
    ensures
        resp matches RawResponse::Body { text } ==> (r matches QueryResult::Success { value }
            && value@ == trim_ws(text@)),
        resp is BadStatus ==> (r matches QueryResult::Error { reason } && reason@
            == fetch_failure_reason(path@)),
        resp matches RawResponse::Failed { why } ==> (r matches QueryResult::Error { reason }
            && reason@ == why@),
{
    match resp {
        RawResponse::Body { text } => QueryResult::Success { value: trim(text.as_str()) },
        RawResponse::BadStatus => {
            let mut reason = String::from_str("Failed to get data for ");
            reason.append(path.as_str());
            reason.append(".");
            QueryResult::Error { reason }
        },
        RawResponse::Failed { why } => QueryResult::Error { reason: why },
    }
}

/// Turn the endpoint's answer to the initial token request into the
/// acquisition's outcome: a success status yields the trimmed token; a
/// non-success status yields the fixed acquisition error; a request that
/// could not be performed reports the driver's reason. `Ok` exactly when
/// the endpoint answered with a success status.
pub fn interpret_token_response(resp: RawResponse) -> (r: Result<String, String>)
    ensures
        resp matches RawResponse::Body { text } ==> (r matches Ok(tok) && tok@ == trim_ws(
            text@,
        )),
        resp is BadStatus ==> (r matches Err(e) && e@ == token_failure_reason()),
        resp matches RawResponse::Failed { why } ==> (r matches Err(e) && e@ == why@),
{
    match resp {
        RawResponse::Body { text } => Ok(trim(text.as_str())),
        RawResponse::BadStatus => Err(String::from_str("Failed to get token.")),
        RawResponse::Failed { why } => Err(why),
    }
}

} // verus!

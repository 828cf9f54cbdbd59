//! The operational endpoints: where they are mounted and what the health
//! probe answers.

use vstd::prelude::*;

verus! {

/// The health probe's path below the operational prefix.
pub const HEALTH_PATH: &'static str = "/health";

/// The metrics exposition's path below the operational prefix.
pub const METRICS_PATH: &'static str = "/metrics";

/// The body of every health response.
pub const HEALTH_BODY: &'static str = "{\"status\":\"OK\"}";

/// The media type of the health response.
pub const HEALTH_CONTENT_TYPE: &'static str = "application/json";

/// An HTTP response as plain values.
#[derive(Debug, Clone, PartialEq, Eq)]
pub struct Response {
    /// The status code.
    pub status: u16,
    /// The value of the `Content-Type` header.
    pub content_type: String,
    /// The body.
    pub body: String,
}

/// The answer of the health probe. It is a liveness signal and nothing else:
/// it takes nothing into account, so it is the same whatever state the
/// metrics registry or any other part of the process is in.
pub fn health_response() -> (r: Response)
    ensures
        r.status == 200,
        r.content_type@ == HEALTH_CONTENT_TYPE@,
        r.body@ == HEALTH_BODY@,
{
    Response {
        status: 200,
        content_type: HEALTH_CONTENT_TYPE.to_owned(),
        body: HEALTH_BODY.to_owned(),
    }
}

} // verus!

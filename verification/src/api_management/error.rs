//! Errors of the management API, at the granularity of an HTTP status.

use vstd::prelude::*;

verus! {

/// An error a management-API request ends with.
#[derive(Debug)]
pub enum ApiError {
    /// 401: no or an invalid principal.
    Unauthorised,
    /// 503: a transient outage, not the caller's fault.
    ServiceUnavailable,
    /// 404: no such resource, or one the caller may not see.
    NotFound,
    /// 400: malformed input.
    InvalidInput { details: String },
    /// 409: the resource is in a state that forbids the request.
    Conflict { details: String },
    /// 500: a server fault.
    Internal { details: String },
}

} // verus!

//! Responses that need no request to be known.

use vstd::prelude::*;

use crate::service::error::{reports, ServiceError};
use crate::service::{Response, Status};

verus! {

/// The response for something that is not there: status 404, no message.
pub fn not_found() -> (response: Response)
    ensures
        reports(response, Status::NotFound, None),
{
    ServiceError::new(Status::NotFound, None).into_response()
}

/// The response for a method that a path does not take: status 405, no
/// message.
pub fn method_not_allowed() -> (response: Response)
    ensures
        reports(response, Status::MethodNotAllowed, None),
{
    ServiceError::new(Status::MethodNotAllowed, None).into_response()
}

} // verus!

//! Errors of the Node API and their report.

use vstd::prelude::*;

use crate::schema::is_04;
use crate::service::{status_code, Body, Response, Status};
use crate::text::text_of;

verus! {

/// Whether the node uses the status with this number.
pub open spec fn known_status(code: u16) -> bool {
    code == 200 || code == 400 || code == 404 || code == 405
}

/// The line that `http::StatusCode` displays for a status that the node uses:
/// the number, a space, and the canonical reason.
pub open spec fn status_line(code: u16) -> Seq<char> {
    if code == 200 {
        "200 OK"@
    } else if code == 400 {
        "400 Bad Request"@
    } else if code == 404 {
        "404 Not Found"@
    } else {
        "405 Method Not Allowed"@
    }
}

/// The text that `http::StatusCode` displays for one of the statuses 200,
/// 400, 404 and 405: its number and canonical reason. `from_u16` takes each
/// of these numbers.
#[verifier::external_body]
pub(crate) fn reason_line(code: u16) -> (line: String)
    requires
        known_status(code),
    ensures
        line@ == status_line(code),
{
    http::StatusCode::from_u16(code).map(|status| status.to_string()).unwrap_or_default()
}

/// An error of the Node API: a status, and a message for whoever debugs.
#[derive(Debug)]
pub struct ServiceError {
    pub status: Status,
    pub debug: Option<String>,
}

impl View for ServiceError {
    type V = (Status, Option<Seq<char>>);

    open spec fn view(&self) -> (Status, Option<Seq<char>>) {
        (self.status, text_of(self.debug))
    }
}

/// Whether `response` reports an error with the given status and message:
/// the status of the response, and as its body the number of the status
/// under `code`, its line under `error`, and the message under `debug`.
pub open spec fn reports(response: Response, status: Status, debug: Option<Seq<char>>) -> bool {
    &&& response.status == status
    &&& response.body matches Body::Error(report)
    &&& report.code == status_code(status)
    &&& report.error@ == status_line(status_code(status))
    &&& text_of(report.debug) == debug
}

impl ServiceError {
    /// An error with a status and a message.
    pub fn new(status: Status, debug: Option<String>) -> (e: Self)
        ensures
            e.status == status,
            e.debug == debug,
    {
        Self { status, debug }
    }

    /// The response that reports the error.
    pub fn into_response(self) -> (response: Response)
        ensures
            reports(response, self.status, text_of(self.debug)),
    {
        let code = self.status.code();
        let report = is_04::v1_0_x::Error {
            code: code as i64,
            error: reason_line(code),
            debug: self.debug,
        };
        Response { status: self.status, body: Body::Error(report) }
    }
}

} // verus!

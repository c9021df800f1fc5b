//! `POST /topic-proposals`: a signed-in user proposes a topic.

use vstd::prelude::*;

use crate::db::ExecResult;
use crate::response::{internal_server_error, is_response, ok_empty, Response, Status};

verus! {

/// The outcome of the statement: any error is `500 Error submitting topic proposal`; an unexpected row
/// count is accepted.
pub fn check_errors(result: ExecResult) -> (r: Result<(), Response>)
    ensures
        result is Ok ==> r is Ok,
        result is Err ==> (r matches Err(e) && is_response(
            e,
            Status::InternalServerError,
            "Error submitting topic proposal"@,
        )),
{
    match result {
        Ok(_) => Ok(()),
        Err(_) => Err(internal_server_error("Error submitting topic proposal")),
    }
}


/// The answer: `200 OK` with an empty body, or the error of `check_errors`.
pub fn written_response(result: ExecResult) -> (r: Response)
    ensures
        result is Ok ==> is_response(r, Status::Success, Seq::empty()),
        result is Err ==> is_response(r, Status::InternalServerError, "Error submitting topic proposal"@),
{
    match check_errors(result) {
        Ok(()) => ok_empty(),
        Err(e) => e,
    }
}

} // verus!

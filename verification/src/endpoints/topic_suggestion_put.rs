//! `PUT /topic_suggestion/{proposal_id}`: an admin accepts a proposed topic.

use vstd::prelude::*;

use crate::db::ExecResult;
use crate::response::{internal_server_error, is_response, join, ok_empty, respond_owned, Response, Status};
use crate::text::{int_error_message, int_error_text, parse_i64, parse_i64_spec};

verus! {

/// What an admin does with a proposal.
#[derive(PartialEq, Eq, Structural, Clone, Copy, Debug)]
pub enum Action {
    Accept,
    Reject,
}

/// The proposal id of the path, or `400 Proposal ID is not an integer: <reason>`.
pub fn proposal_id(proposal_id_string: &str) -> (r: Result<i64, Response>)
    ensures
        parse_i64_spec(proposal_id_string@) matches Ok(id) ==> r == Ok::<i64, Response>(id),
        parse_i64_spec(proposal_id_string@) matches Err(k) ==> (r matches Err(e) && is_response(
            e,
            Status::BadRequest,
            "Proposal ID is not an integer: "@ + int_error_text(k),
        )),
{
    match parse_i64(proposal_id_string) {
        Ok(id) => Ok(id),
        Err(k) => Err(respond_owned(Status::BadRequest, join("Proposal ID is not an integer: ", int_error_message(k)))),
    }
}

/// The outcome of turning the proposal into a topic: `200` with an empty body,
/// whatever the row count, or `500 Error accepting topic proposal`.
pub fn check_errors(result: ExecResult) -> (r: Response)
    ensures
        result is Ok ==> is_response(r, Status::Success, Seq::empty()),
        result is Err ==> is_response(r, Status::InternalServerError, "Error accepting topic proposal"@),
{
    match result {
        Ok(_) => ok_empty(),
        Err(_) => internal_server_error("Error accepting topic proposal"),
    }
}

} // verus!

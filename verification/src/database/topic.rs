//! A topic: its name and its two opposing top arguments.

use vstd::prelude::*;

use crate::arguments_helper::TopArgument;
use crate::db::{DbError, DbErrorKind};
use crate::response::{bad_request, internal_server_error, is_response, Response, Status};

verus! {

/// A topic with the argument for and the argument against.
pub struct Topic {
    pub name: String,
    pub for_argument: TopArgument,
    pub against_argument: TopArgument,
}

/// The topic looked up by id, or `400 Topic not found` where there is none,
/// `500 Error retrieving topic` on any other failure.
pub fn get_topic(row: Result<Topic, DbError>) -> (r: Result<Topic, Response>)
    ensures
        row matches Ok(t) ==> (r matches Ok(u) && u == t),
        row matches Err(e) ==> (e.kind is RowNotFound ==> (r matches Err(resp) && is_response(
            resp,
            Status::BadRequest,
            "Topic not found"@,
        ))),
        row matches Err(e) ==> (!(e.kind is RowNotFound) ==> (r matches Err(resp) && is_response(
            resp,
            Status::InternalServerError,
            "Error retrieving topic"@,
        ))),
{
    match row {
        Ok(topic) => Ok(topic),
        Err(e) => match e.kind {
            DbErrorKind::RowNotFound => Err(bad_request("Topic not found")),
            _ => Err(internal_server_error("Error retrieving topic")),
        },
    }
}

} // verus!

//! `DELETE /arguments`: an admin deletes an argument. Being an admin
//! function, its error answers show the internal error.

use vstd::prelude::*;
use vstd::string::StringExecFns;

use crate::db::ExecResult;
use crate::response::{is_response, join, ok_empty, respond_owned, Response, Status};
use crate::text::{decimal, push_decimal};

verus! {

/// The outcome of the deletion: `200` with an empty body where exactly one row
/// went; `500 Error deleting argument: <error>` on an error and
/// `500 Unexpected number of rows affected: <n>` on any other row count.
pub fn check_errors(result: ExecResult) -> (r: Response)
    ensures
        result matches Ok(rows) ==> (rows == 1 ==> is_response(r, Status::Success, Seq::empty())),
        result matches Ok(rows) ==> (rows != 1 ==> is_response(
            r,
            Status::InternalServerError,
            "Unexpected number of rows affected: "@ + decimal(rows as nat),
        )),
        result matches Err(e) ==> is_response(
            r,
            Status::InternalServerError,
            "Error deleting argument: "@ + e.text@,
        ),
{
    let rows = match result {
        Ok(rows) => rows,
        Err(e) => {
            return respond_owned(Status::InternalServerError, join("Error deleting argument: ", e.text.as_str()));
        },
    };
    if rows != 1 {
        let mut body = String::from_str("Unexpected number of rows affected: ");
        push_decimal(&mut body, rows);
        return respond_owned(Status::InternalServerError, body);
    }
    ok_empty()
}

} // verus!

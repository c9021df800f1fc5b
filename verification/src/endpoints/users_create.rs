//! `POST /users/create`: create an account from a username and password.

use vstd::prelude::*;
use vstd::string::StringExecFns;

use crate::db::{DbError, DbErrorKind, ExecResult};
use crate::response::{internal_server_error, is_response, join, ok_empty, respond_owned, Response, Status};
use crate::text::{decimal, push_decimal};

verus! {

/// The database refused a new account: a duplicate (SQLSTATE `23505`) is
/// `500 User already exists`, any other database error `500 Database error: <message>`,
/// any other failure `500 Error inserting query: <error>`.
pub open spec fn insert_error_body(e: DbError) -> Seq<char> {
    match e.kind {
        DbErrorKind::Database(d) => if d.code is Some && d.code->Some_0@ == "23505"@ {
            "User already exists"@
        } else {
            "Database error: "@ + d.message@
        },
        _ => "Error inserting query: "@ + e.text@,
    }
}

/// The answer to a refused insertion of an account.
pub fn insert_error(e: &DbError) -> (r: Response)
    ensures
        is_response(r, Status::InternalServerError, insert_error_body(*e)),
{
    match &e.kind {
        DbErrorKind::Database(d) => {
            if let Some(code) = &d.code {
                if *code == String::from_str("23505") {
                    return internal_server_error("User already exists");
                }
            }
            respond_owned(Status::InternalServerError, join("Database error: ", d.message.as_str()))
        },
        _ => respond_owned(Status::InternalServerError, join("Error inserting query: ", e.text.as_str())),
    }
}

/// The answer to a stored account: `200` with an empty body where exactly one
/// row went in, `500 <n> rows affected` otherwise.
pub fn success(rows: u64) -> (r: Response)
    ensures
        rows == 1 ==> is_response(r, Status::Success, Seq::empty()),
        rows != 1 ==> is_response(r, Status::InternalServerError, decimal(rows as nat) + " rows affected"@),
{
    if rows == 1 {
        ok_empty()
    } else {
        let mut body = String::new();
        push_decimal(&mut body, rows);
        body.append(" rows affected");
        respond_owned(Status::InternalServerError, body)
    }
}

/// The outcome of inserting the account.
pub fn check_errors(result: ExecResult) -> (r: Response)
    ensures
        result matches Ok(rows) ==> (rows == 1 ==> is_response(r, Status::Success, Seq::empty())),
        result matches Ok(rows) ==> (rows != 1 ==> is_response(
            r,
            Status::InternalServerError,
            decimal(rows as nat) + " rows affected"@,
        )),
        result matches Err(e) ==> is_response(r, Status::InternalServerError, insert_error_body(e)),
{
    match result {
        Ok(rows) => success(rows),
        Err(e) => insert_error(&e),
    }
}

} // verus!

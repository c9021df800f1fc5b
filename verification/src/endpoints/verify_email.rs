//! `POST /verifyemail`: redeem an email verification token.

use vstd::prelude::*;

use crate::db::{DbError, ExecResult};
use crate::response::{internal_server_error, is_response, ok_empty, unauthorized, Response, Status};

verus! {

/// The id of the account whose token was redeemed (and deleted), or
/// `401 Incorrect or expired token` on any failure.
pub fn delete_verification_token(result: Result<i64, DbError>) -> (r: Result<i64, Response>)
    ensures
        result matches Ok(id) ==> r == Ok::<i64, Response>(id),
        result is Err ==> (r matches Err(e) && is_response(e, Status::Unauthorized, "Incorrect or expired token"@)),
{
    match result {
        Ok(id) => Ok(id),
        Err(_) => Err(unauthorized("Incorrect or expired token")),
    }
}

/// The outcome of copying the account to the verified users: any error is
/// `500 Unable to verify email (don't worry, we're working on it)`; an
/// unexpected row count is accepted.
pub fn mark_user_as_verified(result: ExecResult) -> (r: Result<(), Response>)
    ensures
        result is Ok ==> r is Ok,
        result is Err ==> (r matches Err(e) && is_response(
            e,
            Status::InternalServerError,
            "Unable to verify email (don't worry, we're working on it)"@,
        )),
{
    match result {
        Ok(_) => Ok(()),
        Err(_) => Err(internal_server_error("Unable to verify email (don't worry, we're working on it)")),
    }
}

/// `200 OK` with an empty body once the email is verified.
pub fn verified_response() -> (r: Response)
    ensures
        is_response(r, Status::Success, Seq::empty()),
{
    ok_empty()
}


/// The step after copying the account: `Ok` with the id whose unverified
/// account is then deleted (the outcome of which changes nothing), or the answer.
pub fn verify_user_marked(id: i64, result: ExecResult) -> (r: Result<i64, Response>)
    ensures
        result is Ok ==> r == Ok::<i64, Response>(id),
        result is Err ==> (r matches Err(e) && is_response(
            e,
            Status::InternalServerError,
            "Unable to verify email (don't worry, we're working on it)"@,
        )),
{
    mark_user_as_verified(result)?;
    Ok(id)
}

} // verus!

//! Whether a user is an administrator.

use vstd::prelude::*;

use crate::db::DbError;
use crate::response::{internal_server_error, is_response, unauthorized, Response, Status};

verus! {

/// Whether the `roles` table holds the admin role for the user: the answer of
/// the `EXISTS` query (a missing answer counts as no), or `500 Unknown error 2`.
pub fn is_admin(exists: Result<Option<bool>, DbError>) -> (r: Result<bool, Response>)
    ensures
        exists matches Ok(Some(b)) ==> r == Ok::<bool, Response>(b),
        exists matches Ok(None) ==> r == Ok::<bool, Response>(false),
        exists is Err ==> (r matches Err(e) && is_response(e, Status::InternalServerError, "Unknown error 2"@)),
{
    match exists {
        Ok(Some(b)) => Ok(b),
        Ok(None) => Ok(false),
        Err(_) => Err(internal_server_error("Unknown error 2")),
    }
}

/// Admin-only actions go on only for an admin; anyone else gets
/// `401 You must be an admin to perform this action`.
pub fn require_admin(is_admin: bool) -> (r: Result<(), Response>)
    ensures
        is_admin ==> r is Ok,
        !is_admin ==> (r matches Err(e) && is_response(
            e,
            Status::Unauthorized,
            "You must be an admin to perform this action"@,
        )),
{
    if !is_admin {
        return Err(unauthorized("You must be an admin to perform this action"));
    }
    Ok(())
}


/// The admin check of an admin-only action on the `EXISTS` answer: `Ok` only
/// where the user holds the admin role.
pub fn admin_gate(exists: Result<Option<bool>, DbError>) -> (r: Result<(), Response>)
    ensures
        r is Ok <==> exists == Ok::<Option<bool>, DbError>(Some(true)),
        exists matches Ok(b) ==> (b != Some(true) ==> (r matches Err(e) && is_response(
            e,
            Status::Unauthorized,
            "You must be an admin to perform this action"@,
        ))),
        exists is Err ==> (r matches Err(e) && is_response(e, Status::InternalServerError, "Unknown error 2"@)),
{
    let admin = is_admin(exists)?;
    require_admin(admin)
}

} // verus!

//! `GET /arguments`: a fixed greeting; and the check of a username and a
//! raw session token that it once made.

use vstd::prelude::*;
use vstd::string::StringExecFns;

use crate::db::DbError;
use crate::response::{is_response, join, ok, respond_owned, unauthorized, Response, Status};
use crate::session_helper::{decode_token, spec_url_safe_decode};

verus! {

/// The greeting body: `[{"body":"Hello from Actix Rust with Postgresql!"}]`.
pub open spec fn greeting_body() -> Seq<char> {
    "[{\"body\":\"Hello from Actix Rust with Postgresql!\"}]"@
}

/// `200 OK` with the greeting.
pub fn arguments_response() -> (r: Response)
    ensures
        is_response(r, Status::Success, greeting_body()),
{
    ok(String::from_str("[{\"body\":\"Hello from Actix Rust with Postgresql!\"}]"))
}

/// The token bytes to look up: `401 No session token provided` without a
/// token, `401 Session token decode error: <error>` where it is not base64.
pub fn authorization_token(session_token: Option<&str>) -> (r: Result<Vec<u8>, Response>)
    ensures
        session_token is None ==> (r matches Err(e) && is_response(
            e,
            Status::Unauthorized,
            "No session token provided"@,
        )),
        session_token matches Some(t) ==> (spec_url_safe_decode(t@) matches Ok(b) ==> (r matches Ok(v)
            && v@ == b)),
        session_token matches Some(t) ==> (spec_url_safe_decode(t@) matches Err(m) ==> (r matches Err(e)
            && is_response(e, Status::Unauthorized, "Session token decode error: "@ + m))),
{
    let token = match session_token {
        Some(t) => t,
        None => return Err(unauthorized("No session token provided")),
    };
    match decode_token(token) {
        Ok(bytes) => Ok(bytes),
        Err(m) => Err(respond_owned(Status::Unauthorized, join("Session token decode error: ", m.as_str()))),
    }
}

/// Whether the username holds the token: at least one matching row; a failed
/// count is `500 Error retrieving user data: <error>`.
pub fn check_authorization(count: Result<i64, DbError>) -> (r: Result<bool, Response>)
    ensures
        count matches Ok(n) ==> r == Ok::<bool, Response>(n >= 1),
        count matches Err(d) ==> (r matches Err(e) && is_response(
            e,
            Status::InternalServerError,
            "Error retrieving user data: "@ + d.text@,
        )),
{
    match count {
        Ok(n) => Ok(n >= 1),
        Err(d) => Err(respond_owned(Status::InternalServerError, join("Error retrieving user data: ", d.text.as_str()))),
    }
}

} // verus!

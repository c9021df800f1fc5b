//! `POST /logout`: delete the session of the cookie and remove the cookie.

use vstd::prelude::*;

use crate::db::ExecResult;
use crate::hashing_helper::{session_hash_failure, session_token_hash};
use crate::response::{bad_request, internal_server_error, is_response, unauthorized, CookieUpdate, Response, Status};
use crate::session_helper::{cookie_token_hash, decode_token, spec_url_safe_decode};

verus! {

/// The session cookie's value, or `401 Unauthorized` where the request has none.
pub fn session_cookie(cookie: Option<String>) -> (r: Result<String, Response>)
    ensures
        cookie matches Some(v) ==> (r matches Ok(w) && w@ == v@),
        cookie is None ==> (r matches Err(e) && is_response(e, Status::Unauthorized, "Unauthorized"@)),
{
    match cookie {
        Some(v) => Ok(v),
        None => Err(unauthorized("Unauthorized")),
    }
}

/// The hash of the session to delete: the peppered hash of the decoded
/// cookie. A cookie that is not base64 is `400 Session token is invalid base64`.
pub fn delete_session_token(cookie_value: &str, pepper: &str) -> (r: Result<String, Response>)
    ensures
        spec_url_safe_decode(cookie_value@) is Err ==> (r matches Err(e) && is_response(
            e,
            Status::BadRequest,
            "Session token is invalid base64"@,
        )),
        cookie_token_hash(cookie_value@, pepper@) matches Some(h) ==> (r matches Ok(s) && s@ == h),
        spec_url_safe_decode(cookie_value@) is Ok && cookie_token_hash(cookie_value@, pepper@) is None
            ==> (r matches Err(e) && is_response(e, Status::InternalServerError, session_hash_failure(pepper@))),
{
    let token = match decode_token(cookie_value) {
        Ok(token) => token,
        Err(_) => return Err(bad_request("Session token is invalid base64")),
    };
    session_token_hash(&token, pepper)
}

/// The outcome of deleting the session: any error is `500 Error saving session
/// token`; an unexpected row count is accepted.
pub fn check_errors(result: ExecResult) -> (r: Result<(), Response>)
    ensures
        result is Ok ==> r is Ok,
        result is Err ==> (r matches Err(e) && is_response(
            e,
            Status::InternalServerError,
            "Error saving session token"@,
        )),
{
    match result {
        Ok(_) => Ok(()),
        Err(_) => Err(internal_server_error("Error saving session token")),
    }
}

/// `200 OK` with an empty body that removes the session cookie.
pub fn logout_response() -> (r: Response)
    ensures
        r.status == Status::Success,
        r.body@ == Seq::<char>::empty(),
        r.cookie is RemoveSession,
{
    Response { status: Status::Success, body: String::new(), cookie: CookieUpdate::RemoveSession }
}


/// The first step of a logout: the hash of the session to delete, or the answer.
pub fn logout_start(cookie: Option<String>, pepper: &str) -> (r: Result<String, Response>)
    ensures
        cookie is None ==> (r matches Err(e) && is_response(e, Status::Unauthorized, "Unauthorized"@)),
        cookie matches Some(v) ==> (spec_url_safe_decode(v@) is Err ==> (r matches Err(e) && is_response(
            e,
            Status::BadRequest,
            "Session token is invalid base64"@,
        ))),
        cookie matches Some(v) ==> (cookie_token_hash(v@, pepper@) matches Some(h) ==> (r matches Ok(s)
            && s@ == h)),
        cookie matches Some(v) ==> (spec_url_safe_decode(v@) is Ok && cookie_token_hash(v@, pepper@) is None
            ==> (r matches Err(e) && is_response(e, Status::InternalServerError, session_hash_failure(pepper@)))),
{
    let value = session_cookie(cookie)?;
    delete_session_token(value.as_str(), pepper)
}

/// The last step, on the outcome of the deletion: `200 OK` removing the cookie,
/// or `500 Error saving session token`.
pub fn logout_finish(deleted: ExecResult) -> (r: Response)
    ensures
        deleted is Ok ==> (r.status == Status::Success && r.body@ == Seq::<char>::empty() && r.cookie is RemoveSession),
        deleted is Err ==> is_response(r, Status::InternalServerError, "Error saving session token"@),
{
    match check_errors(deleted) {
        Ok(()) => logout_response(),
        Err(e) => e,
    }
}

} // verus!

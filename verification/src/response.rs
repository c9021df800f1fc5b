use vstd::prelude::*;
use vstd::string::StringExecFns;

verus! {

/// The HTTP status classes the server answers with.
#[derive(PartialEq, Eq, Structural, Clone, Copy, Debug)]
pub enum Status {
    Success,
    BadRequest,
    Unauthorized,
    NotFound,
    InternalServerError,
}

/// What a response does to the client's `session_token` cookie.
pub enum CookieUpdate {
    /// The cookie is left as it is.
    Keep,
    /// The cookie is set to the given (base64) value.
    SetSession(String),
    /// The cookie is removed.
    RemoveSession,
}

/// An HTTP response: status, body text and what it does to the session cookie.
pub struct Response {
    pub status: Status,
    pub body: String,
    pub cookie: CookieUpdate,
}

/// `r` has the given status and body and leaves the cookie alone.
pub open spec fn is_response(r: Response, status: Status, body: Seq<char>) -> bool {
    &&& r.status == status
    &&& r.body@ == body
    &&& r.cookie is Keep
}

/// A response with the given status whose body is `body`.
pub fn respond(status: Status, body: &str) -> (r: Response)
    ensures
        is_response(r, status, body@),
{
    Response { status, body: String::from_str(body), cookie: CookieUpdate::Keep }
}

/// A response with the given status whose body is the given string.
pub fn respond_owned(status: Status, body: String) -> (r: Response)
    ensures
        is_response(r, status, body@),
{
    Response { status, body, cookie: CookieUpdate::Keep }
}

/// `200 OK` with the given body.
pub fn ok(body: String) -> (r: Response)
    ensures
        is_response(r, Status::Success, body@),
{
    respond_owned(Status::Success, body)
}

/// `200 OK` with an empty body.
pub fn ok_empty() -> (r: Response)
    ensures
        is_response(r, Status::Success, Seq::empty()),
{
    Response { status: Status::Success, body: String::new(), cookie: CookieUpdate::Keep }
}

/// `400 Bad Request` with the given message.
pub fn bad_request(msg: &str) -> (r: Response)
    ensures
        is_response(r, Status::BadRequest, msg@),
{
    respond(Status::BadRequest, msg)
}

/// `401 Unauthorized` with the given message.
pub fn unauthorized(msg: &str) -> (r: Response)
    ensures
        is_response(r, Status::Unauthorized, msg@),
{
    respond(Status::Unauthorized, msg)
}

/// `404 Not Found` with the given message.
pub fn not_found(msg: &str) -> (r: Response)
    ensures
        is_response(r, Status::NotFound, msg@),
{
    respond(Status::NotFound, msg)
}

/// `500 Internal Server Error` with the given message.
pub fn internal_server_error(msg: &str) -> (r: Response)
    ensures
        is_response(r, Status::InternalServerError, msg@),
{
    respond(Status::InternalServerError, msg)
}

/// The text `prefix` followed by `rest`.
pub fn join(prefix: &str, rest: &str) -> (r: String)
    ensures
        r@ == prefix@ + rest@,
{
    String::from_str(prefix).concat(rest)
}

} // verus!

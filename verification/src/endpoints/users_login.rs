//! `POST /users/login`: check a username's password and hand out a raw
//! session token in the body.

use vstd::prelude::*;
use vstd::string::{StringExecFns, StringSliceAdditionalSpecFns};

use crate::db::{DbError, DbErrorKind, ExecResult};
use crate::hashing_helper::{argon2_verify, phc_parse, spec_argon2_verify, spec_phc_parse};
use crate::json::{json_key, push_key};
use crate::response::{bad_request, is_response, join, ok, respond_owned, Response, Status};
use crate::session_helper::{b64_url_encode, encode_token, new_token_bytes, spec_url_safe_decode};
use crate::text::{decimal, json_string, push_char, push_decimal, push_json_string};

verus! {

/// The stored hash of the user, or `400 User not found` where there is no such
/// user, `500 Error retrieving user data: <error>` on any other failure.
pub fn get_stored_password(row: Result<String, DbError>) -> (r: Result<String, Response>)
    ensures
        row matches Ok(h) ==> (r matches Ok(s) && s@ == h@),
        row matches Err(e) ==> (e.kind is RowNotFound ==> (r matches Err(resp) && is_response(
            resp,
            Status::BadRequest,
            "User not found"@,
        ))),
        row matches Err(e) ==> (!(e.kind is RowNotFound) ==> (r matches Err(resp) && is_response(
            resp,
            Status::InternalServerError,
            "Error retrieving user data: "@ + e.text@,
        ))),
{
    match row {
        Ok(h) => Ok(h),
        Err(e) => match e.kind {
            DbErrorKind::RowNotFound => Err(bad_request("User not found")),
            _ => Err(respond_owned(Status::InternalServerError, join("Error retrieving user data: ", e.text.as_str()))),
        },
    }
}

/// Argon2's answer for the entered password against the stored hash under the
/// pepper, or
/// `500 Invalid stored password hash: <error>` where the stored string is no
/// PHC string.
pub fn check_password(entered_password: &str, stored_password: &str, pepper: &str) -> (r: Result<bool, Response>)
    ensures
        spec_phc_parse(stored_password@) is Ok ==> r == Ok::<bool, Response>(
            spec_argon2_verify(entered_password.spec_bytes(), stored_password@, pepper.spec_bytes()),
        ),
        spec_phc_parse(stored_password@) matches Err(t) ==> (r matches Err(e) && is_response(
            e,
            Status::InternalServerError,
            "Invalid stored password hash: "@ + t,
        )),
{
    match phc_parse(stored_password) {
        Err(t) => Err(respond_owned(Status::InternalServerError, join("Invalid stored password hash: ", t.as_str()))),
        Ok(()) => Ok(argon2_verify(entered_password.as_bytes(), stored_password, pepper.as_bytes())),
    }
}

/// A wrong password is `400 Password incorrect`.
pub fn require_correct_password(is_correct_password: bool) -> (r: Result<(), Response>)
    ensures
        is_correct_password ==> r is Ok,
        !is_correct_password ==> (r matches Err(e) && is_response(e, Status::BadRequest, "Password incorrect"@)),
{
    if !is_correct_password {
        return Err(bad_request("Password incorrect"));
    }
    Ok(())
}

/// A raw session token: the bytes stored and the base64 text handed out.
pub struct RawToken {
    pub bytes: Vec<u8>,
    pub encoded: String,
}

/// The token for the given bytes: handed out as their URL-safe base64.
pub fn token_for_bytes(bytes: Vec<u8>) -> (r: RawToken)
    ensures
        r.bytes@ == bytes@,
        r.encoded@ == b64_url_encode(bytes@),
        spec_url_safe_decode(r.encoded@) == Ok::<Seq<u8>, Seq<char>>(bytes@),
{
    let encoded = encode_token(&bytes);
    RawToken { bytes, encoded }
}

/// A fresh random 16-byte token; the text handed out decodes to the bytes stored.
pub fn create_session_token() -> (r: RawToken)
    ensures
        r.bytes@.len() == 16,
        r.encoded@ == b64_url_encode(r.bytes@),
        spec_url_safe_decode(r.encoded@) == Ok::<Seq<u8>, Seq<char>>(r.bytes@),
{
    token_for_bytes(new_token_bytes())
}

/// The stored token: fine where exactly one row went in, `500 <n> rows affected` otherwise.
pub fn success(rows: u64) -> (r: Result<(), Response>)
    ensures
        rows == 1 ==> r is Ok,
        rows != 1 ==> (r matches Err(e) && is_response(
            e,
            Status::InternalServerError,
            decimal(rows as nat) + " rows affected"@,
        )),
{
    if rows == 1 {
        Ok(())
    } else {
        let mut body = String::new();
        push_decimal(&mut body, rows);
        body.append(" rows affected");
        Err(respond_owned(Status::InternalServerError, body))
    }
}

/// The outcome of storing the token; an error is `500 Error saving session token: <error>`.
pub fn check_errors(result: ExecResult) -> (r: Result<(), Response>)
    ensures
        result matches Ok(rows) ==> (rows == 1 ==> r is Ok),
        result matches Ok(rows) ==> (rows != 1 ==> (r matches Err(e) && is_response(
            e,
            Status::InternalServerError,
            decimal(rows as nat) + " rows affected"@,
        ))),
        result matches Err(d) ==> (r matches Err(e) && is_response(
            e,
            Status::InternalServerError,
            "Error saving session token: "@ + d.text@,
        )),
{
    match result {
        Ok(rows) => success(rows),
        Err(e) => Err(respond_owned(Status::InternalServerError, join("Error saving session token: ", e.text.as_str()))),
    }
}

/// The body `{"session_token":"..."}`.
pub open spec fn token_body(token: Seq<char>) -> Seq<char> {
    seq!['{'] + json_key("session_token"@) + json_string(token) + seq!['}']
}

/// `200 OK` with the token as `{"session_token":"..."}`.
pub fn token_response(token: &str) -> (r: Response)
    ensures
        is_response(r, Status::Success, token_body(token@)),
{
    let mut out = String::new();
    push_char(&mut out, '{');
    push_key(&mut out, "session_token");
    push_json_string(&mut out, token);
    push_char(&mut out, '}');
    assert(out@ =~= token_body(token@));
    ok(out)
}


/// The first step, on the stored hash of the username: where the password
/// checks, a fresh token to store for the user; otherwise the answer.
pub fn users_login_checked(row: Result<String, DbError>, password: &str, pepper: &str) -> (r: Result<RawToken, Response>)
    ensures
        row matches Err(e) ==> (e.kind is RowNotFound ==> (r matches Err(resp) && is_response(
            resp,
            Status::BadRequest,
            "User not found"@,
        ))),
        row matches Err(e) ==> (!(e.kind is RowNotFound) ==> (r matches Err(resp) && is_response(
            resp,
            Status::InternalServerError,
            "Error retrieving user data: "@ + e.text@,
        ))),
        row matches Ok(h) ==> (spec_phc_parse(h@) matches Err(t) ==> (r matches Err(e) && is_response(
            e,
            Status::InternalServerError,
            "Invalid stored password hash: "@ + t,
        ))),
        row matches Ok(h) ==> (spec_phc_parse(h@) is Ok && !spec_argon2_verify(
            password.spec_bytes(),
            h@,
            pepper.spec_bytes(),
        ) ==> (r matches Err(e) && is_response(e, Status::BadRequest, "Password incorrect"@))),
        r matches Ok(t) ==> (row matches Ok(h) && spec_phc_parse(h@) is Ok && spec_argon2_verify(
            password.spec_bytes(),
            h@,
            pepper.spec_bytes(),
        ) && t.bytes@.len() == 16 && spec_url_safe_decode(t.encoded@) == Ok::<Seq<u8>, Seq<char>>(t.bytes@)),
        row matches Ok(h) ==> (spec_phc_parse(h@) is Ok && spec_argon2_verify(password.spec_bytes(), h@, pepper.spec_bytes())
            ==> r is Ok),
{
    let stored = get_stored_password(row)?;
    let is_correct = check_password(password, stored.as_str(), pepper)?;
    require_correct_password(is_correct)?;
    Ok(create_session_token())
}

/// The last step, on the outcome of storing the token: `200 OK` with the token
/// as `{"session_token":"..."}`, or the error of `check_errors`.
pub fn users_login_finish(token: &RawToken, stored: ExecResult) -> (r: Response)
    ensures
        stored matches Ok(rows) ==> (rows == 1 ==> is_response(r, Status::Success, token_body(token.encoded@))),
        stored matches Ok(rows) ==> (rows != 1 ==> is_response(
            r,
            Status::InternalServerError,
            decimal(rows as nat) + " rows affected"@,
        )),
        stored matches Err(d) ==> is_response(
            r,
            Status::InternalServerError,
            "Error saving session token: "@ + d.text@,
        ),
{
    match check_errors(stored) {
        Ok(()) => token_response(token.encoded.as_str()),
        Err(e) => e,
    }
}

} // verus!

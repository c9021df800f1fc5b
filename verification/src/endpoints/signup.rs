//! `POST /signup`: create the account and mail a verification token.

use rand::distributions::{Alphanumeric, DistString};
use vstd::prelude::*;

use crate::db::{violates_unique, DatabaseError, DbError, DbErrorKind, ExecResult};
use crate::response::{bad_request, internal_server_error, is_response, join, ok_empty, respond_owned, Response, Status};
use vstd::string::StringExecFns;

verus! {

/// `c` is an ASCII letter or digit.
pub open spec fn is_alphanumeric(c: char) -> bool {
    ||| ('a' <= c && c <= 'z')
    ||| ('A' <= c && c <= 'Z')
    ||| ('0' <= c && c <= '9')
}

/// Six random alphanumeric characters.
///
/// Trusted: calls `rand::distributions::Alphanumeric.sample_string` with
/// `thread_rng` and length 6; rand's source draws each character from
/// `[A-Za-z0-9]`. Which characters come out is not stated.
#[verifier::external_body]
fn random_alphanumeric_6() -> (r: String)
    ensures
        r@.len() == 6,
        forall|i: int| 0 <= i < r@.len() ==> #[trigger] is_alphanumeric(r@[i]),
{
    Alphanumeric.sample_string(&mut rand::thread_rng(), 6)
}

/// A fresh email verification token: six alphanumeric characters.
pub fn verification_token() -> (r: String)
    ensures
        r@.len() == 6,
        forall|i: int| 0 <= i < r@.len() ==> #[trigger] is_alphanumeric(r@[i]),
{
    random_alphanumeric_6()
}

/// The database refused the new account: a duplicate email or username is
/// `400` and names which; anything else is `500 Error creating account`.
pub fn check_errors(db_error: &DatabaseError) -> (r: Response)
    ensures
        violates_unique(*db_error, "users_email_key"@)
            ==> is_response(r, Status::BadRequest, "An account with that email already exists"@),
        violates_unique(*db_error, "users_username_key"@)
            ==> is_response(r, Status::BadRequest, "An account with that username already exists"@),
        !violates_unique(*db_error, "users_email_key"@) && !violates_unique(*db_error, "users_username_key"@)
            ==> is_response(
            r,
            Status::InternalServerError,
            "Error creating account"@,
        ),
{
    proof {
        reveal_strlit("users_email_key");
        reveal_strlit("users_username_key");
        assert("users_email_key"@[6] != "users_username_key"@[6]);
    }
    if db_error.unique_violation {
        match &db_error.constraint {
            Some(c) => {
                if *c == String::from_str("users_email_key") {
                    return bad_request("An account with that email already exists");
                }
                if *c == String::from_str("users_username_key") {
                    return bad_request("An account with that username already exists");
                }
            },
            None => {},
        }
    }
    internal_server_error("Error creating account")
}

/// The outcome of inserting the account: its id, the answer of `check_errors`
/// where the database refused it, `500 Error creating account` otherwise.
pub fn signup_insert(result: Result<i64, DbError>) -> (r: Result<i64, Response>)
    ensures
        result matches Ok(id) ==> r == Ok::<i64, Response>(id),
        result matches Err(e) ==> (!(e.kind is Database) ==> (r matches Err(resp) && is_response(
            resp,
            Status::InternalServerError,
            "Error creating account"@,
        ))),
        result matches Err(e) ==> (e.kind matches DbErrorKind::Database(d) ==> (r matches Err(resp)
            && resp.status != Status::Success
            && (violates_unique(d, "users_email_key"@)
                ==> is_response(resp, Status::BadRequest, "An account with that email already exists"@))
            && (violates_unique(d, "users_username_key"@)
                ==> is_response(resp, Status::BadRequest, "An account with that username already exists"@))
            && (!violates_unique(d, "users_email_key"@) && !violates_unique(d, "users_username_key"@)
                ==> is_response(resp, Status::InternalServerError, "Error creating account"@)))),
{
    match result {
        Ok(id) => Ok(id),
        Err(e) => match &e.kind {
            DbErrorKind::Database(db_error) => Err(check_errors(db_error)),
            _ => Err(internal_server_error("Error creating account")),
        },
    }
}

/// The outcome of storing the verification token: any error is
/// `500 Error verifying email`; the row count is not checked.
pub fn verification_token_saved(result: ExecResult) -> (r: Result<(), Response>)
    ensures
        result is Ok ==> r is Ok,
        result is Err ==> (r matches Err(e) && is_response(
            e,
            Status::InternalServerError,
            "Error verifying email"@,
        )),
{
    match result {
        Ok(_) => Ok(()),
        Err(_) => Err(internal_server_error("Error verifying email")),
    }
}

/// The subject of the verification email.
pub fn verification_email_subject() -> (r: &'static str)
    ensures
        r@ == "Confirm account"@,
{
    "Confirm account"
}

/// The text of the verification email for `token`, linking to the frontend.
pub open spec fn verification_email_body_spec(token: Seq<char>, frontend_url: Seq<char>) -> Seq<char> {
    "\nYour verification token is: "@ + token + "\nPlease click this link to verify your email: "@
        + frontend_url + "/verifyemail?token="@ + token + "\n\nIf you did not sign up for "@
        + frontend_url
        + " please ignore this email and do not click the link above.\n\nThank you!\n\t\t\t"@
}

/// The text of the verification email.
pub fn verification_email_body(token: &str, frontend_url: &str) -> (r: String)
    ensures
        r@ == verification_email_body_spec(token@, frontend_url@),
{
    let mut body = String::from_str("\nYour verification token is: ");
    body.append(token);
    body.append("\nPlease click this link to verify your email: ");
    body.append(frontend_url);
    body.append("/verifyemail?token=");
    body.append(token);
    body.append("\n\nIf you did not sign up for ");
    body.append(frontend_url);
    body.append(" please ignore this email and do not click the link above.\n\nThank you!\n\t\t\t");
    body
}

/// Whether the email went out: `400 Cannot send email to address: <email>` where it did not.
pub fn verification_email_sent(success: bool, email: &str) -> (r: Result<(), Response>)
    ensures
        success ==> r is Ok,
        !success ==> (r matches Err(e) && is_response(
            e,
            Status::BadRequest,
            "Cannot send email to address: "@ + email@,
        )),
{
    if success {
        Ok(())
    } else {
        Err(respond_owned(Status::BadRequest, join("Cannot send email to address: ", email)))
    }
}

/// `200 OK` with an empty body once the account exists and the email is sent.
pub fn signup_response() -> (r: Response)
    ensures
        is_response(r, Status::Success, Seq::empty()),
{
    ok_empty()
}


/// A new account whose verification token is to be stored.
pub struct PendingVerification {
    pub user_id: i64,
    pub token: String,
}

/// The first step after inserting the account: with its id, a fresh token to
/// store for it (the next step stores `token` under `user_id`); otherwise the answer.
pub fn signup_inserted(result: Result<i64, DbError>) -> (r: Result<PendingVerification, Response>)
    ensures
        result matches Ok(id) ==> (r matches Ok(p) && p.user_id == id && p.token@.len() == 6
            && forall|i: int| 0 <= i < p.token@.len() ==> #[trigger] is_alphanumeric(p.token@[i])),
        result matches Err(e) ==> (!(e.kind is Database) ==> (r matches Err(resp) && is_response(
            resp,
            Status::InternalServerError,
            "Error creating account"@,
        ))),
        result matches Err(e) ==> (e.kind matches DbErrorKind::Database(d) ==> (r matches Err(resp)
            && (violates_unique(d, "users_email_key"@)
                ==> is_response(resp, Status::BadRequest, "An account with that email already exists"@))
            && (violates_unique(d, "users_username_key"@)
                ==> is_response(resp, Status::BadRequest, "An account with that username already exists"@))
            && (!violates_unique(d, "users_email_key"@) && !violates_unique(d, "users_username_key"@)
                ==> is_response(resp, Status::InternalServerError, "Error creating account"@)))),
{
    let user_id = signup_insert(result)?;
    let token = verification_token();
    Ok(PendingVerification { user_id, token })
}

/// An email to send.
pub struct Email {
    pub to: String,
    pub subject: String,
    pub body: String,
}

/// The second step, on the outcome of storing the token: where it went in, the
/// signup goes on to mail the token (and only then reads where the frontend is).
pub fn verification_stored(pending: PendingVerification, stored: ExecResult) -> (r: Result<PendingVerification, Response>)
    ensures
        stored is Ok ==> (r matches Ok(p) && p == pending),
        stored is Err ==> (r matches Err(e) && is_response(
            e,
            Status::InternalServerError,
            "Error verifying email"@,
        )),
{
    verification_token_saved(stored)?;
    Ok(pending)
}

/// The verification email of a stored token, sent to the new account's address.
pub fn verification_email(pending: &PendingVerification, email: &str, frontend_url: &str) -> (m: Email)
    ensures
        m.to@ == email@,
        m.subject@ == "Confirm account"@,
        m.body@ == verification_email_body_spec(pending.token@, frontend_url@),
{
    Email {
        to: String::from_str(email),
        subject: String::from_str(verification_email_subject()),
        body: verification_email_body(pending.token.as_str(), frontend_url),
    }
}

/// The last step, on whether the email went out: `200 OK` with an empty body,
/// or `400 Cannot send email to address: <email>`.
pub fn signup_finish(success: bool, email: &str) -> (r: Response)
    ensures
        success ==> is_response(r, Status::Success, Seq::empty()),
        !success ==> is_response(r, Status::BadRequest, "Cannot send email to address: "@ + email@),
{
    match verification_email_sent(success, email) {
        Ok(()) => signup_response(),
        Err(e) => e,
    }
}

} // verus!

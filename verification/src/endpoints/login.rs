//! `POST /login`: check the password, open a session, answer with the
//! user's name and roles and set the session cookie.

use vstd::prelude::*;

use crate::db::{DbError, DbErrorKind, ExecResult};
use crate::hashing_helper::{
    check_hashes, is_valid_salt, password_matches, session_hash_failure, session_hash_spec,
    session_token_hash, spec_phc_parse,
};
use crate::json::{json_array, json_key, json_strings, push_key, push_string_array};
use crate::response::{bad_request, internal_server_error, is_response, CookieUpdate, Response, Status};
use crate::session_helper::{
    b64_url_encode, cookie_token_hash, encode_token, new_token_bytes, spec_url_safe_decode,
};
use crate::text::{json_string, push_char, push_json_string};
use vstd::string::StringSliceAdditionalSpecFns;

verus! {

/// A stored account as the login reads it.
pub struct User {
    pub id: i64,
    pub username: String,
    /// The stored PHC password hash.
    pub password: String,
}

/// The account looked up by email, or `400 An account with this email does not
/// exist` where there is none, `500 Error retrieving user data` on any other failure.
pub fn get_id_and_password(row: Result<User, DbError>) -> (r: Result<User, Response>)
    ensures
        row matches Ok(u) ==> (r matches Ok(v) && v == u),
        row matches Err(e) ==> (e.kind is RowNotFound ==> (r matches Err(resp) && is_response(
            resp,
            Status::BadRequest,
            "An account with this email does not exist"@,
        ))),
        row matches Err(e) ==> (!(e.kind is RowNotFound) ==> (r matches Err(resp) && is_response(
            resp,
            Status::InternalServerError,
            "Error retrieving user data"@,
        ))),
{
    match row {
        Ok(user) => Ok(user),
        Err(e) => match e.kind {
            DbErrorKind::RowNotFound => Err(bad_request("An account with this email does not exist")),
            _ => Err(internal_server_error("Error retrieving user data")),
        },
    }
}

/// The entered password against the stored hash under the pepper: `Ok` only
/// where Argon2 accepts it; `400 Incorrect password` where it does not, the hash check's
/// `500` where the stored hash is unreadable.
pub fn check_password(entered_password: &str, stored_hash: &str, pepper: &str) -> (r: Result<(), Response>)
    ensures
        r is Ok <==> password_matches(entered_password.spec_bytes(), stored_hash@, pepper.spec_bytes()),
        spec_phc_parse(stored_hash@) is Ok && !password_matches(entered_password.spec_bytes(), stored_hash@, pepper.spec_bytes())
            ==> (r matches Err(e) && is_response(e, Status::BadRequest, "Incorrect password"@)),
        spec_phc_parse(stored_hash@) is Err ==> (r matches Err(e) && is_response(
            e,
            Status::InternalServerError,
            "Error checking hash, we're looking into it"@,
        )),
{
    let is_correct_password = check_hashes(entered_password.as_bytes(), stored_hash, pepper)?;
    if !is_correct_password {
        return Err(bad_request("Incorrect password"));
    }
    Ok(())
}

/// A new session: the cookie value handed to the client and the hash stored
/// in the database.
pub struct SessionToken {
    pub cookie_value: String,
    pub token_hash: String,
}

/// The session for the token bytes `token`: its cookie is the URL-safe base64
/// of the bytes, its stored hash the peppered hash of the bytes.
pub fn session_for_token(token: &[u8], pepper: &str) -> (r: Result<SessionToken, Response>)
    ensures
        session_hash_spec(token@, pepper@) matches Some(h) ==> (r matches Ok(t) && t.token_hash@ == h
            && t.cookie_value@ == b64_url_encode(token@)),
        session_hash_spec(token@, pepper@) is None ==> (r matches Err(e) && is_response(
            e,
            Status::InternalServerError,
            session_hash_failure(pepper@),
        )),
        r matches Ok(t) ==> spec_url_safe_decode(t.cookie_value@) == Ok::<Seq<u8>, Seq<char>>(token@),
        r matches Ok(t) ==> cookie_token_hash(t.cookie_value@, pepper@) == Some(t.token_hash@),
{
    let token_hash = session_token_hash(token, pepper)?;
    let cookie_value = encode_token(token);
    Ok(SessionToken { cookie_value, token_hash })
}

/// A new session for a fresh random 16-byte token. Whatever token is drawn,
/// the cookie handed out is recognised by the session check as this session:
/// it decodes to the token, whose peppered hash is the one stored.
pub fn create_session_token(pepper: &str) -> (r: Result<SessionToken, Response>)
    ensures
        !is_valid_salt(pepper@) ==> (r matches Err(e) && is_response(
            e,
            Status::InternalServerError,
            "Bad server hashing configuration"@,
        )),
        r matches Ok(t) ==> cookie_token_hash(t.cookie_value@, pepper@) == Some(t.token_hash@),
        r matches Ok(t) ==> (spec_url_safe_decode(t.cookie_value@) matches Ok(b) && b.len() == 16
            && t.cookie_value@ == b64_url_encode(b) && session_hash_spec(b, pepper@) == Some(t.token_hash@)),
        r matches Err(e) ==> is_response(e, Status::InternalServerError, session_hash_failure(pepper@)),
        (forall|t: Seq<u8>| t.len() == 16 ==> #[trigger] session_hash_spec(t, pepper@) is Some) ==> r is Ok,
{
    let token = new_token_bytes();
    session_for_token(&token, pepper)
}

/// The outcome of storing the session: any error is `500 Error saving session
/// token`; an unexpected row count is accepted.
pub fn check_errors(result: ExecResult) -> (r: Result<(), Response>)
    ensures
        result is Ok ==> r is Ok,
        result is Err ==> (r matches Err(e) && is_response(
            e,
            Status::InternalServerError,
            "Error saving session token"@,
        )),
{
    match result {
        Ok(_) => Ok(()),
        Err(_) => Err(internal_server_error("Error saving session token")),
    }
}

/// The user's roles, or none where they cannot be read.
pub fn get_roles(result: Result<Vec<String>, DbError>) -> (r: Vec<String>)
    ensures
        result matches Ok(roles) ==> r@ == roles@,
        result is Err ==> r@.len() == 0,
{
    match result {
        Ok(roles) => roles,
        Err(_) => Vec::new(),
    }
}

/// The body of a successful login: `{"roles":[...],"username":"..."}`.
pub open spec fn login_body_spec(username: Seq<char>, roles: Seq<String>) -> Seq<char> {
    seq!['{'] + json_key("roles"@) + json_array(json_strings(roles)) + seq![','] + json_key(
        "username"@,
    ) + json_string(username) + seq!['}']
}

/// The body of a successful login.
pub fn login_body(username: &str, roles: &Vec<String>) -> (r: String)
    ensures
        r@ == login_body_spec(username@, roles@),
{
    let mut out = String::new();
    push_char(&mut out, '{');
    push_key(&mut out, "roles");
    push_string_array(&mut out, roles);
    push_char(&mut out, ',');
    push_key(&mut out, "username");
    push_json_string(&mut out, username);
    push_char(&mut out, '}');
    assert(out@ =~= login_body_spec(username@, roles@));
    out
}

/// `200 OK` with the login body, setting the session cookie.
pub fn login_response(username: &str, roles: &Vec<String>, cookie_value: String) -> (r: Response)
    ensures
        r.status == Status::Success,
        r.body@ == login_body_spec(username@, roles@),
        r.cookie matches CookieUpdate::SetSession(v) && v@ == cookie_value@,
{
    Response {
        status: Status::Success,
        body: login_body(username, roles),
        cookie: CookieUpdate::SetSession(cookie_value),
    }
}


/// A login whose password checked: the session to store for the user, and
/// what the answer will carry.
pub struct PendingLogin {
    pub user_id: i64,
    pub username: String,
    pub session: SessionToken,
}

/// The first step of a login, on the account found by email: where the
/// password checks, a new session to store for that user (the next step stores
/// `session.token_hash` under `user_id`); otherwise the answer.
pub fn login_user_found(row: Result<User, DbError>, password: &str, pepper: &str) -> (r: Result<PendingLogin, Response>)
    ensures
        row is Err ==> r is Err,
        row matches Err(e) ==> (e.kind is RowNotFound ==> (r matches Err(resp) && is_response(
            resp,
            Status::BadRequest,
            "An account with this email does not exist"@,
        ))),
        row matches Err(e) ==> (!(e.kind is RowNotFound) ==> (r matches Err(resp) && is_response(
            resp,
            Status::InternalServerError,
            "Error retrieving user data"@,
        ))),
        row matches Ok(u) ==> (spec_phc_parse(u.password@) is Err ==> (r matches Err(e) && is_response(
            e,
            Status::InternalServerError,
            "Error checking hash, we're looking into it"@,
        ))),
        row matches Ok(u) ==> (spec_phc_parse(u.password@) is Ok && !password_matches(
            password.spec_bytes(),
            u.password@,
            pepper.spec_bytes(),
        ) ==> (r matches Err(e) && is_response(e, Status::BadRequest, "Incorrect password"@))),
        row matches Ok(u) ==> (password_matches(password.spec_bytes(), u.password@, pepper.spec_bytes())
            ==> (r matches Err(e) ==> is_response(e, Status::InternalServerError, session_hash_failure(pepper@)))),
        row matches Ok(u) ==> (password_matches(password.spec_bytes(), u.password@, pepper.spec_bytes())
            && (forall|t: Seq<u8>| t.len() == 16 ==> #[trigger] session_hash_spec(t, pepper@) is Some) ==> r is Ok),
        r matches Ok(p) ==> (row matches Ok(u) && p.user_id == u.id && p.username@ == u.username@
            && password_matches(password.spec_bytes(), u.password@, pepper.spec_bytes())
            && cookie_token_hash(p.session.cookie_value@, pepper@) == Some(p.session.token_hash@)),
        r matches Ok(p) ==> (spec_url_safe_decode(p.session.cookie_value@) matches Ok(b) && b.len() == 16
            && p.session.cookie_value@ == b64_url_encode(b) && session_hash_spec(b, pepper@) == Some(
            p.session.token_hash@,
        )),
{
    let user = get_id_and_password(row)?;
    check_password(password, user.password.as_str(), pepper)?;
    let session = create_session_token(pepper)?;
    Ok(PendingLogin { user_id: user.id, username: user.username, session })
}

/// The second step, on the outcome of storing the session: where it went in,
/// the login goes on to read the user's roles.
pub fn login_session_stored(pending: PendingLogin, stored: ExecResult) -> (r: Result<PendingLogin, Response>)
    ensures
        stored is Ok ==> (r matches Ok(p) && p == pending),
        stored is Err ==> (r matches Err(e) && is_response(
            e,
            Status::InternalServerError,
            "Error saving session token"@,
        )),
{
    check_errors(stored)?;
    Ok(pending)
}

/// The last step, on the user's roles: `200 OK` with the name and roles, setting
/// the cookie of the stored session.
pub fn login_finish(pending: PendingLogin, roles: Result<Vec<String>, DbError>) -> (r: Response)
    ensures
        r.status == Status::Success,
        roles matches Ok(v) ==> r.body@ == login_body_spec(pending.username@, v@),
        roles is Err ==> r.body@ == login_body_spec(pending.username@, Seq::empty()),
        r.cookie matches CookieUpdate::SetSession(c) && c@ == pending.session.cookie_value@,
{
    let roles = get_roles(roles);
    login_response(pending.username.as_str(), &roles, pending.session.cookie_value)
}

} // verus!

//! `POST /account/signup`: create an account from an email and password.

use vstd::prelude::*;
use vstd::string::{StringExecFns, StringSliceAdditionalSpecFns};

use crate::db::ExecResult;
use crate::endpoints::users_create::{insert_error, insert_error_body};
use crate::hashing_helper::{
    argon2_hash_password, generate_salt, is_argon2id_phc, is_argon2id_phc_with_salt, is_b64_of_16_bytes,
    is_valid_salt, password_matches, spec_argon2_hash, within_argon2_limits,
};
use crate::response::{is_response, join, ok, respond_owned, Response, Status};
use crate::text::{decimal, push_decimal};

verus! {

/// Hashes the new account's password under a fresh random salt, with the pepper
/// as Argon2's secret key; a refused hash is `500 Error hashing password: <error>`.
pub fn hash_new_password(password: &str, pepper: &str) -> (r: Result<String, Response>)
    ensures
        r matches Ok(h) ==> password_matches(password.spec_bytes(), h@, pepper.spec_bytes()),
        r matches Ok(h) ==> is_argon2id_phc(h@),
        within_argon2_limits(password.spec_bytes(), pepper.spec_bytes()) ==> r is Ok,
        r matches Ok(h) ==> exists|salt: Seq<char>|
            is_b64_of_16_bytes(salt) && is_argon2id_phc_with_salt(h@, salt) && #[trigger] spec_argon2_hash(password.spec_bytes(), salt, pepper.spec_bytes()) == Ok::<Seq<char>, Seq<char>>(h@),
        r matches Err(e) ==> exists|salt: Seq<char>|
            is_valid_salt(salt) && #[trigger] spec_argon2_hash(password.spec_bytes(), salt, pepper.spec_bytes()) is Err
                && is_response(
                e,
                Status::InternalServerError,
                "Error hashing password: "@ + spec_argon2_hash(password.spec_bytes(), salt, pepper.spec_bytes())->Err_0,
            ),
{
    let salt = generate_salt();
    match argon2_hash_password(password.as_bytes(), salt.as_str(), pepper.as_bytes()) {
        Ok(h) => Ok(h),
        Err(t) => {
            let r = respond_owned(Status::InternalServerError, join("Error hashing password: ", t.as_str()));
            assert(spec_argon2_hash(password.spec_bytes(), salt@, pepper.spec_bytes()) == Err::<Seq<char>, Seq<char>>(t@));
            Err(r)
        },
    }
}

/// The body of a created account: `{"token":0}`.
pub open spec fn created_body() -> Seq<char> {
    "{\"token\":0}"@
}

/// The answer to a stored account: `200 {"token":0}` where exactly one row
/// went in, `500 <n> rows affected` otherwise.
pub fn success(rows: u64) -> (r: Response)
    ensures
        rows == 1 ==> is_response(r, Status::Success, created_body()),
        rows != 1 ==> is_response(r, Status::InternalServerError, decimal(rows as nat) + " rows affected"@),
{
    if rows == 1 {
        ok(String::from_str("{\"token\":0}"))
    } else {
        let mut body = String::new();
        push_decimal(&mut body, rows);
        body.append(" rows affected");
        respond_owned(Status::InternalServerError, body)
    }
}

/// The outcome of inserting the account.
pub fn check_errors(result: ExecResult) -> (r: Response)
    ensures
        result matches Ok(rows) ==> (rows == 1 ==> is_response(r, Status::Success, created_body())),
        result matches Ok(rows) ==> (rows != 1 ==> is_response(
            r,
            Status::InternalServerError,
            decimal(rows as nat) + " rows affected"@,
        )),
        result matches Err(e) ==> is_response(r, Status::InternalServerError, insert_error_body(e)),
{
    match result {
        Ok(rows) => success(rows),
        Err(e) => insert_error(&e),
    }
}

} // verus!

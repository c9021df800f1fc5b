//! Session cookies: URL-safe base64 of a random token, looked up by the
//! token's peppered hash.

use argon2::password_hash::rand_core::{OsRng, RngCore};
use base64::{engine, Engine};
use vstd::prelude::*;

use crate::db::{DbError, DbErrorKind};
use crate::hashing_helper::{session_hash_failure, session_hash_spec, session_token_hash};
use crate::response::{internal_server_error, is_response, unauthorized, Response, Status};

verus! {

/// The URL-safe base64 digit of `v` (for `v < 64`): `A-Z a-z 0-9 - _`.
pub open spec fn b64_url_char(v: int) -> char {
    if v < 26 {
        (v + 65) as char
    } else if v < 52 {
        (v - 26 + 97) as char
    } else if v < 62 {
        (v - 52 + 48) as char
    } else if v == 62 {
        '-'
    } else {
        '_'
    }
}

/// URL-safe base64 of `b` with `=` padding: each group of three bytes gives
/// four digits, a last group of one or two bytes is padded to four.
pub open spec fn b64_url_encode(b: Seq<u8>) -> Seq<char>
    decreases b.len(),
{
    if b.len() == 0 {
        Seq::empty()
    } else {
        let x = b[0] as int;
        let y = if b.len() > 1 { b[1] as int } else { 0 };
        let z = if b.len() > 2 { b[2] as int } else { 0 };
        let c0 = b64_url_char(x / 4);
        let c1 = b64_url_char((x % 4) * 16 + y / 16);
        let c2 = b64_url_char((y % 16) * 4 + z / 64);
        let c3 = b64_url_char(z % 64);
        if b.len() == 1 {
            seq![c0, c1, '=', '=']
        } else if b.len() == 2 {
            seq![c0, c1, c2, '=']
        } else {
            seq![c0, c1, c2, c3] + b64_url_encode(b.skip(3))
        }
    }
}

/// The bytes that URL-safe base64 (canonical padding) decodes `text` to, or
/// the decode error's text.
pub uninterp spec fn spec_url_safe_decode(text: Seq<char>) -> Result<Seq<u8>, Seq<char>>;

/// URL-safe base64 with padding.
///
/// Trusted: calls `base64::engine::general_purpose::URL_SAFE.encode`. The contract
/// states the encoding and that decoding with the same engine gives the bytes back.
#[verifier::external_body]
fn url_safe_encode(bytes: &[u8]) -> (r: String)
    ensures
        r@ == b64_url_encode(bytes@),
        spec_url_safe_decode(r@) is Ok && spec_url_safe_decode(r@)->Ok_0 == bytes@,
{
    engine::general_purpose::URL_SAFE.encode(bytes)
}

/// URL-safe base64 decoding.
///
/// Trusted: calls `base64::engine::general_purpose::URL_SAFE.decode` on the
/// text's bytes; the outcome, and the error's display text, is named by
/// `spec_url_safe_decode`.
#[verifier::external_body]
fn url_safe_decode(text: &str) -> (r: Result<Vec<u8>, String>)
    ensures
        bytes_result(r) == spec_url_safe_decode(text@),
{
    match engine::general_purpose::URL_SAFE.decode(text) {
        Ok(bytes) => Ok(bytes),
        Err(e) => Err(e.to_string()),
    }
}

/// Sixteen fresh random bytes.
///
/// Trusted: calls `OsRng::fill_bytes` on a 16-byte buffer; which bytes come out
/// is not stated.
#[verifier::external_body]
fn random_token() -> (r: Vec<u8>)
    ensures
        r@.len() == 16,
{
    let mut token = [0u8; 16];
    OsRng.fill_bytes(&mut token);
    token.to_vec()
}

/// The view of a decoding outcome.
pub open spec fn bytes_result(r: Result<Vec<u8>, String>) -> Result<Seq<u8>, Seq<char>> {
    match r {
        Ok(b) => Ok(b@),
        Err(e) => Err(e@),
    }
}

/// URL-safe base64 of `bytes`, as the session cookie carries it.
pub fn encode_token(bytes: &[u8]) -> (r: String)
    ensures
        r@ == b64_url_encode(bytes@),
        spec_url_safe_decode(r@) == Ok::<Seq<u8>, Seq<char>>(bytes@),
{
    url_safe_encode(bytes)
}

/// URL-safe base64 decoding of `text`: the bytes, or the error's text.
pub fn decode_token(text: &str) -> (r: Result<Vec<u8>, String>)
    ensures
        bytes_result(r) == spec_url_safe_decode(text@),
{
    url_safe_decode(text)
}

/// Sixteen fresh random bytes for a session token.
pub fn new_token_bytes() -> (r: Vec<u8>)
    ensures
        r@.len() == 16,
{
    random_token()
}

/// Decodes a session cookie's value. Only a value that is valid URL-safe base64
/// may be handed in.
pub fn decode_cookie(cookie_value: &str) -> (r: Vec<u8>)
    requires
        spec_url_safe_decode(cookie_value@) is Ok,
    ensures
        spec_url_safe_decode(cookie_value@) == Ok::<Seq<u8>, Seq<char>>(r@),
{
    match url_safe_decode(cookie_value) {
        Ok(bytes) => bytes,
        Err(_) => Vec::new(),
    }
}

/// The hash under which the session of the cookie `cookie_value` is stored,
/// where the cookie decodes and the hashing succeeds.
pub open spec fn cookie_token_hash(cookie_value: Seq<char>, pepper: Seq<char>) -> Option<Seq<char>> {
    match spec_url_safe_decode(cookie_value) {
        Ok(token) => session_hash_spec(token, pepper),
        Err(_) => None,
    }
}

/// The first half of a session check: the hash to look the session up by.
/// Without a cookie the request is `401 Unauthorized: No cookie given`; a
/// cookie that is not valid URL-safe base64 can name no stored session and is
/// answered `401 Session token does not exist or has expired`; otherwise the
/// decoded token's peppered hash, or the `500` of a failed hashing.
pub fn check_session(cookie: Option<&str>, pepper: &str) -> (r: Result<String, Response>)
    ensures
        cookie is None ==> (r matches Err(e) && is_response(
            e,
            Status::Unauthorized,
            "Unauthorized: No cookie given"@,
        )),
        cookie matches Some(v) ==> (spec_url_safe_decode(v@) is Err ==> (r matches Err(e) && is_response(
            e,
            Status::Unauthorized,
            "Session token does not exist or has expired"@,
        ))),
        cookie matches Some(v) ==> (cookie_token_hash(v@, pepper@) matches Some(h) ==> (r matches Ok(s)
            && s@ == h)),
        cookie matches Some(v) ==> (cookie_token_hash(v@, pepper@) is None && spec_url_safe_decode(
            v@,
        ) is Ok ==> (r matches Err(e) && is_response(
            e,
            Status::InternalServerError,
            session_hash_failure(pepper@),
        ))),
{
    match cookie {
        None => Err(unauthorized("Unauthorized: No cookie given")),
        Some(v) => {
            if url_safe_decode(v).is_err() {
                return Err(unauthorized("Session token does not exist or has expired"));
            }
            let token = decode_cookie(v);
            session_token_hash(&token, pepper)
        },
    }
}

/// The second half of a session check: the user id of the session found, or
/// `401` where no session has that hash and `500` on any other failure.
pub fn check_cookie(lookup: Result<i64, DbError>) -> (r: Result<i64, Response>)
    ensures
        lookup matches Ok(id) ==> r == Ok::<i64, Response>(id),
        lookup matches Err(e) ==> (e.kind is RowNotFound ==> (r matches Err(resp) && is_response(
            resp,
            Status::Unauthorized,
            "Session token does not exist or has expired"@,
        ))),
        lookup matches Err(e) ==> (!(e.kind is RowNotFound) ==> (r matches Err(resp) && is_response(
            resp,
            Status::InternalServerError,
            "Error retrieving cookie"@,
        ))),
{
    match lookup {
        Ok(id) => Ok(id),
        Err(e) => match e.kind {
            DbErrorKind::RowNotFound => Err(unauthorized("Session token does not exist or has expired")),
            _ => Err(internal_server_error("Error retrieving cookie")),
        },
    }
}

} // verus!

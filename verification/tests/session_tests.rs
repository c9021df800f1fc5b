use base64::Engine;
use eris::db::{DbError, DbErrorKind};
use eris::endpoints::login::{create_session_token, session_for_token};
use eris::endpoints::logout::delete_session_token;
use eris::response::Status;
use eris::session_helper::{check_cookie, check_session, decode_cookie, decode_token, encode_token};

const PEPPER: &str = "c29tZXNhbHRzb21lc2FsdA";

#[test]
fn encode_is_url_safe_base64_with_padding() {
    assert_eq!(encode_token(&[]), "");
    assert_eq!(encode_token(&[0xfb]), "-w==");
    assert_eq!(encode_token(&[0xfb, 0xff]), "-_8=");
    assert_eq!(encode_token(b"Man"), "TWFu");
    assert_eq!(encode_token(b"hello world"), "aGVsbG8gd29ybGQ=");
}

#[test]
fn decode_reads_back_encoding() {
    let bytes = [1u8, 2, 3, 250, 251, 252, 253, 254, 255];
    assert_eq!(decode_token(&encode_token(&bytes)), Ok(bytes.to_vec()));
    assert_eq!(decode_cookie("-_8="), vec![0xfb, 0xff]);
    assert!(decode_token("not base64!").is_err());
    assert!(decode_token("-_8").is_err());
}

#[test]
fn missing_cookie_is_unauthorized() {
    let err = check_session(None, PEPPER).err().unwrap();
    assert_eq!(err.status, Status::Unauthorized);
    assert_eq!(err.body, "Unauthorized: No cookie given");
}

#[test]
fn invalid_cookie_has_no_lookup() {
    let r = check_session(Some("%%%"), PEPPER).err().unwrap();
    assert_eq!(r.status, Status::Unauthorized);
    assert_eq!(r.body, "Session token does not exist or has expired");
    let r = check_session(Some("!!!!"), PEPPER).err().unwrap();
    assert_eq!(r.status, Status::Unauthorized);
    let r = check_session(None, PEPPER).err().unwrap();
    assert_eq!(r.body, "Unauthorized: No cookie given");
}

#[test]
fn login_cookie_finds_its_session() {
    let session = create_session_token(PEPPER).ok().unwrap();
    let looked_up = check_session(Some(&session.cookie_value), PEPPER).ok().unwrap();
    assert_eq!(looked_up, session.token_hash);
    let deleted = delete_session_token(&session.cookie_value, PEPPER).ok().unwrap();
    assert_eq!(deleted, session.token_hash);
    assert_eq!(decode_cookie(&session.cookie_value).len(), 16);
}

#[test]
fn session_for_given_token() {
    let session = session_for_token(b"0123456789abcdef", PEPPER).ok().unwrap();
    assert_eq!(session.cookie_value, "MDEyMzQ1Njc4OWFiY2RlZg==");
    let err = session_for_token(b"0123456789abcdef", "x").err().unwrap();
    assert_eq!(err.body, "Bad server hashing configuration");
}

#[test]
fn session_lookup_outcomes() {
    assert_eq!(check_cookie(Ok(7)).ok(), Some(7));
    let missing = DbError { kind: DbErrorKind::RowNotFound, text: "no rows".to_string() };
    let err = check_cookie(Err(missing)).err().unwrap();
    assert_eq!(err.status, Status::Unauthorized);
    assert_eq!(err.body, "Session token does not exist or has expired");
    let broken = DbError { kind: DbErrorKind::Other, text: "pool closed".to_string() };
    let err = check_cookie(Err(broken)).err().unwrap();
    assert_eq!(err.status, Status::InternalServerError);
    assert_eq!(err.body, "Error retrieving cookie");
}

#[test]
fn encode_matches_the_base64_crate() {
    for len in 0..48usize {
        let bytes: Vec<u8> = (0..len).map(|i| (i * 37 + len * 11) as u8).collect();
        assert_eq!(encode_token(&bytes), base64::engine::general_purpose::URL_SAFE.encode(&bytes));
        assert_eq!(decode_token(&encode_token(&bytes)), Ok(bytes));
    }
}

use eris::admin_helper::admin_gate;
use eris::db::{DbError, DbErrorKind};
use eris::endpoints::{arguments_post, arguments_put, login, logout, signup, topic_proposals_post, users_login, verify_email};
use eris::hashing_helper::hash_string;
use eris::response::{CookieUpdate, Status};
use eris::session_helper::check_session;

const PEPPER: &str = "c29tZXNhbHRzb21lc2FsdA";

fn failure() -> DbError {
    DbError { kind: DbErrorKind::Other, text: "connection reset".to_string() }
}

#[test]
fn login_flow_hands_out_the_stored_session() {
    let stored = hash_string("open sesame", PEPPER).ok().unwrap();
    let user = login::User { id: 9, username: "ali".to_string(), password: stored };
    let pending = login::login_user_found(Ok(user), "open sesame", PEPPER).ok().unwrap();
    assert_eq!(pending.user_id, 9);
    let stored_hash = pending.session.token_hash.clone();
    let pending = login::login_session_stored(pending, Ok(1)).ok().unwrap();
    let r = login::login_finish(pending, Ok(vec!["admin".to_string()]));
    assert_eq!(r.status, Status::Success);
    assert_eq!(r.body, "{\"roles\":[\"admin\"],\"username\":\"ali\"}");
    let cookie = match r.cookie {
        CookieUpdate::SetSession(c) => c,
        _ => panic!("a login sets the cookie"),
    };
    assert_eq!(check_session(Some(&cookie), PEPPER).ok(), Some(stored_hash.clone()));
    assert_eq!(eris::session_helper::decode_cookie(&cookie).len(), 16);
    assert_eq!(logout::logout_start(Some(cookie), PEPPER).ok(), Some(stored_hash));
}

#[test]
fn login_flow_refuses_wrong_password() {
    let stored = hash_string("open sesame", PEPPER).ok().unwrap();
    let user = login::User { id: 9, username: "ali".to_string(), password: stored };
    let r = login::login_user_found(Ok(user), "close sesame", PEPPER).err().unwrap();
    assert_eq!(r.status, Status::BadRequest);
    assert_eq!(r.body, "Incorrect password");
}

#[test]
fn login_flow_store_failure_and_missing_roles() {
    let stored = hash_string("pw", PEPPER).ok().unwrap();
    let user = login::User { id: 1, username: "u".to_string(), password: stored.clone() };
    let pending = login::login_user_found(Ok(user), "pw", PEPPER).ok().unwrap();
    let r = login::login_session_stored(pending, Err(failure())).err().unwrap();
    assert_eq!(r.body, "Error saving session token");
    let user = login::User { id: 1, username: "u".to_string(), password: stored };
    let pending = login::login_user_found(Ok(user), "pw", PEPPER).ok().unwrap();
    let r = login::login_finish(pending, Err(failure()));
    assert_eq!(r.body, "{\"roles\":[],\"username\":\"u\"}");
}

#[test]
fn logout_flow_outcomes() {
    let r = logout::logout_start(None, PEPPER).err().unwrap();
    assert_eq!(r.status, Status::Unauthorized);
    let r = logout::logout_finish(Ok(1));
    assert!(matches!(r.cookie, CookieUpdate::RemoveSession));
    assert_eq!(r.status, Status::Success);
    let r = logout::logout_finish(Err(failure()));
    assert_eq!(r.status, Status::InternalServerError);
    assert_eq!(r.body, "Error saving session token");
}

#[test]
fn signup_flow_outcomes() {
    let pending = signup::signup_inserted(Ok(77)).ok().unwrap();
    assert_eq!(pending.user_id, 77);
    assert_eq!(pending.token.len(), 6);
    let pending = signup::verification_stored(pending, Ok(1)).ok().unwrap();
    let mail = signup::verification_email(&pending, "new@example.com", "https://f.example");
    assert_eq!(mail.to, "new@example.com");
    assert_eq!(mail.subject, "Confirm account");
    assert_eq!(mail.body, signup::verification_email_body(&pending.token, "https://f.example"));
    let r = signup::verification_stored(pending, Err(failure())).err().unwrap();
    assert_eq!(r.body, "Error verifying email");
    assert_eq!(signup::signup_finish(true, "x@y.z").status, Status::Success);
    let r = signup::signup_finish(false, "x@y.z");
    assert_eq!(r.status, Status::BadRequest);
    assert_eq!(r.body, "Cannot send email to address: x@y.z");
    let r = signup::signup_inserted(Err(failure())).err().unwrap();
    assert_eq!(r.body, "Error creating account");
}

#[test]
fn verify_email_flow_outcomes() {
    assert_eq!(verify_email::verify_user_marked(4, Ok(1)).ok(), Some(4));
    let r = verify_email::verify_user_marked(4, Err(failure())).err().unwrap();
    assert_eq!(r.status, Status::InternalServerError);
}

#[test]
fn admin_gate_outcomes() {
    assert!(admin_gate(Ok(Some(true))).is_ok());
    let r = admin_gate(Ok(Some(false))).err().unwrap();
    assert_eq!(r.status, Status::Unauthorized);
    assert_eq!(r.body, "You must be an admin to perform this action");
    assert!(admin_gate(Ok(None)).is_err());
    let r = admin_gate(Err(failure())).err().unwrap();
    assert_eq!(r.body, "Unknown error 2");
}

#[test]
fn written_responses() {
    assert_eq!(arguments_post::written_response(Ok(1)).status, Status::Success);
    assert_eq!(arguments_put::written_response(Ok(0)).status, Status::Success);
    assert_eq!(topic_proposals_post::written_response(Err(failure())).body, "Error submitting topic proposal");
}

#[test]
fn users_login_flow_outcomes() {
    let stored = hash_string("pw", PEPPER).ok().unwrap();
    let token = users_login::users_login_checked(Ok(stored.clone()), "pw", PEPPER).ok().unwrap();
    assert_eq!(token.bytes.len(), 16);
    let r = users_login::users_login_finish(&token, Ok(1));
    assert_eq!(r.body, format!("{{\"session_token\":\"{}\"}}", token.encoded));
    let r = users_login::users_login_checked(Ok(stored), "px", PEPPER).err().unwrap();
    assert_eq!(r.body, "Password incorrect");
    let r = users_login::users_login_finish(&token, Ok(2));
    assert_eq!(r.body, "2 rows affected");
}

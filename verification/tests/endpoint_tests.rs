use eris::admin_helper::{is_admin, require_admin};
use eris::arguments_helper::{get_response_arguments, TopArgument};
use eris::database::topic::{get_topic, Topic};
use eris::db::{DatabaseError, DbError, DbErrorKind};
use eris::endpoints::{
    account_signup, arguments, arguments_delete, arguments_get, arguments_post, arguments_put, login, logout,
    signup, topic_get, topic_proposals_post, topic_suggestion_put, topics, users_create, users_login,
    verify_email,
};
use eris::response::{CookieUpdate, Response, Status};
use serde_json::Value;
use eris::email_helper::{compose_email, email_addresses, AddressProblem};

const PEPPER: &str = "c29tZXNhbHRzb21lc2FsdA";

fn row_not_found() -> DbError {
    DbError { kind: DbErrorKind::RowNotFound, text: "no rows returned by a query that expected to return at least one row".to_string() }
}

fn other_error() -> DbError {
    DbError { kind: DbErrorKind::Other, text: "pool timed out while waiting for an open connection".to_string() }
}

fn database_error(code: Option<&str>, constraint: Option<&str>, unique: bool) -> DatabaseError {
    DatabaseError {
        code: code.map(|c| c.to_string()),
        constraint: constraint.map(|c| c.to_string()),
        unique_violation: unique,
        message: "duplicate key value violates unique constraint".to_string(),
    }
}

fn assert_response(r: &Response, status: Status, body: &str) {
    assert_eq!(r.status, status);
    assert_eq!(r.body, body);
}

fn argument(id: i64, body: &str) -> TopArgument {
    TopArgument { id, body: body.to_string() }
}

fn argument_value(a: &TopArgument) -> Value {
    let mut m = serde_json::Map::new();
    m.insert("id".to_string(), Value::from(a.id));
    m.insert("body".to_string(), Value::from(a.body.clone()));
    Value::Object(m)
}

#[test]
fn login_lookup_outcomes() {
    let user = login::User { id: 3, username: "ann".to_string(), password: "$argon2id$x".to_string() };
    let found = login::get_id_and_password(Ok(user)).ok().unwrap();
    assert_eq!(found.id, 3);
    let r = login::get_id_and_password(Err(row_not_found())).err().unwrap();
    assert_response(&r, Status::BadRequest, "An account with this email does not exist");
    let r = login::get_id_and_password(Err(other_error())).err().unwrap();
    assert_response(&r, Status::InternalServerError, "Error retrieving user data");
}

#[test]
fn login_password_check() {
    let stored = eris::hashing_helper::hash_string("hunter2", PEPPER).ok().unwrap();
    assert!(login::check_password("hunter2", &stored, PEPPER).is_ok());
    let r = login::check_password("hunter3", &stored, PEPPER).err().unwrap();
    assert_response(&r, Status::BadRequest, "Incorrect password");
    let r = login::check_password("hunter2", "garbage", PEPPER).err().unwrap();
    assert_response(&r, Status::InternalServerError, "Error checking hash, we're looking into it");
}

#[test]
fn login_session_store_outcome() {
    assert!(login::check_errors(Ok(1)).is_ok());
    assert!(login::check_errors(Ok(2)).is_ok());
    let r = login::check_errors(Err(other_error())).err().unwrap();
    assert_response(&r, Status::InternalServerError, "Error saving session token");
}

#[test]
fn login_roles_fall_back_to_none() {
    assert_eq!(login::get_roles(Ok(vec!["admin".to_string()])), vec!["admin".to_string()]);
    assert!(login::get_roles(Err(other_error())).is_empty());
}

#[test]
fn login_body_matches_serde_json() {
    let roles = vec!["admin".to_string(), "mod \"x\"".to_string()];
    let r = login::login_response("ann \\ b", &roles, "Y29va2ll".to_string());
    let mut m = serde_json::Map::new();
    m.insert("username".to_string(), Value::from("ann \\ b"));
    m.insert("roles".to_string(), Value::from(roles.clone()));
    assert_response(&Response { status: r.status, body: r.body.clone(), cookie: CookieUpdate::Keep }, Status::Success, &Value::Object(m).to_string());
    match r.cookie {
        CookieUpdate::SetSession(v) => assert_eq!(v, "Y29va2ll"),
        _ => panic!("login must set the session cookie"),
    }
    assert_eq!(login::login_body("x", &vec![]), "{\"roles\":[],\"username\":\"x\"}");
}

#[test]
fn logout_steps() {
    assert_eq!(logout::session_cookie(Some("abc".to_string())).ok(), Some("abc".to_string()));
    let r = logout::session_cookie(None).err().unwrap();
    assert_response(&r, Status::Unauthorized, "Unauthorized");
    let r = logout::delete_session_token("%%%", "c29tZXNhbHRzb21lc2FsdA").err().unwrap();
    assert_response(&r, Status::BadRequest, "Session token is invalid base64");
    assert!(logout::check_errors(Ok(0)).is_ok());
    let r = logout::check_errors(Err(other_error())).err().unwrap();
    assert_response(&r, Status::InternalServerError, "Error saving session token");
    let r = logout::logout_response();
    assert_eq!(r.status, Status::Success);
    assert!(r.body.is_empty());
    assert!(matches!(r.cookie, CookieUpdate::RemoveSession));
}

#[test]
fn signup_duplicate_answers() {
    let r = signup::check_errors(&database_error(Some("23505"), Some("users_email_key"), true));
    assert_response(&r, Status::BadRequest, "An account with that email already exists");
    let r = signup::check_errors(&database_error(Some("23505"), Some("users_username_key"), true));
    assert_response(&r, Status::BadRequest, "An account with that username already exists");
    let r = signup::check_errors(&database_error(Some("23505"), Some("other_key"), true));
    assert_response(&r, Status::InternalServerError, "Error creating account");
    let r = signup::check_errors(&database_error(None, Some("users_email_key"), false));
    assert_response(&r, Status::InternalServerError, "Error creating account");
}

#[test]
fn signup_insert_outcomes() {
    assert_eq!(signup::signup_insert(Ok(11)).ok(), Some(11));
    let e = DbError { kind: DbErrorKind::Database(database_error(Some("23505"), Some("users_email_key"), true)), text: "dup".to_string() };
    let r = signup::signup_insert(Err(e)).err().unwrap();
    assert_response(&r, Status::BadRequest, "An account with that email already exists");
    let r = signup::signup_insert(Err(other_error())).err().unwrap();
    assert_response(&r, Status::InternalServerError, "Error creating account");
}

#[test]
fn signup_verification_email() {
    let token = signup::verification_token();
    assert_eq!(token.chars().count(), 6);
    assert!(token.chars().all(|c| c.is_ascii_alphanumeric()));
    assert!(signup::verification_token_saved(Ok(1)).is_ok());
    let r = signup::verification_token_saved(Err(other_error())).err().unwrap();
    assert_response(&r, Status::InternalServerError, "Error verifying email");
    assert_eq!(signup::verification_email_subject(), "Confirm account");
    let body = signup::verification_email_body("aB3xY9", "https://eris.example");
    let expected = format!(
        "\nYour verification token is: {t}\nPlease click this link to verify your email: {u}/verifyemail?token={t}\n\nIf you did not sign up for {u} please ignore this email and do not click the link above.\n\nThank you!\n\t\t\t",
        t = "aB3xY9",
        u = "https://eris.example"
    );
    assert_eq!(body, expected);
    assert!(signup::verification_email_sent(true, "a@b.c").is_ok());
    let r = signup::verification_email_sent(false, "a@b.c").err().unwrap();
    assert_response(&r, Status::BadRequest, "Cannot send email to address: a@b.c");
    assert_response(&signup::signup_response(), Status::Success, "");
}

#[test]
fn verify_email_outcomes() {
    assert_eq!(verify_email::delete_verification_token(Ok(5)).ok(), Some(5));
    let r = verify_email::delete_verification_token(Err(row_not_found())).err().unwrap();
    assert_response(&r, Status::Unauthorized, "Incorrect or expired token");
    assert!(verify_email::mark_user_as_verified(Ok(0)).is_ok());
    let r = verify_email::mark_user_as_verified(Err(other_error())).err().unwrap();
    assert_response(&r, Status::InternalServerError, "Unable to verify email (don't worry, we're working on it)");
    assert_response(&verify_email::verified_response(), Status::Success, "");
}

#[test]
fn admin_outcomes() {
    assert_eq!(is_admin(Ok(Some(true))).ok(), Some(true));
    assert_eq!(is_admin(Ok(Some(false))).ok(), Some(false));
    assert_eq!(is_admin(Ok(None)).ok(), Some(false));
    let r = is_admin(Err(other_error())).err().unwrap();
    assert_response(&r, Status::InternalServerError, "Unknown error 2");
    assert!(require_admin(true).is_ok());
    let r = require_admin(false).err().unwrap();
    assert_response(&r, Status::Unauthorized, "You must be an admin to perform this action");
}

#[test]
fn response_arguments_outcomes() {
    let args = get_response_arguments(Ok(vec![argument(1, "a")])).ok().unwrap();
    assert_eq!(args.len(), 1);
    let r = get_response_arguments(Err(row_not_found())).err().unwrap();
    assert_response(&r, Status::BadRequest, "Argument not found");
    let r = get_response_arguments(Err(other_error())).err().unwrap();
    assert_response(&r, Status::InternalServerError, "Error retrieving argument");
}

#[test]
fn arguments_body_matches_serde_json() {
    let args = vec![argument(1, "first"), argument(-2, "with \"quotes\"\n")];
    let r = arguments_get::arguments_response(&args);
    let mut m = serde_json::Map::new();
    m.insert("args".to_string(), Value::Array(args.iter().map(argument_value).collect()));
    assert_response(&r, Status::Success, &Value::Object(m).to_string());
    assert_response(&arguments_get::arguments_response(&vec![]), Status::Success, "{\"args\":[]}");
}

#[test]
fn parent_id_parsing() {
    assert_eq!(arguments_get::parent_id("42").ok(), Some(42));
    let r = arguments_get::parent_id("4x").err().unwrap();
    assert_response(&r, Status::BadRequest, "Parent ID is not an integer: invalid digit found in string");
}

#[test]
fn topic_lookup_outcomes() {
    let topic = Topic { name: "t".to_string(), for_argument: argument(1, "yes"), against_argument: argument(2, "no") };
    assert_eq!(get_topic(Ok(topic)).ok().unwrap().name, "t");
    let r = get_topic(Err(row_not_found())).err().unwrap();
    assert_response(&r, Status::BadRequest, "Topic not found");
    let r = get_topic(Err(other_error())).err().unwrap();
    assert_response(&r, Status::InternalServerError, "Error retrieving topic");
}

#[test]
fn topic_body_matches_serde_json() {
    let topic = Topic { name: "Cats \u{1} or dogs".to_string(), for_argument: argument(10, "Cats"), against_argument: argument(20, "Dogs") };
    let against = vec![argument(30, "dogs drool")];
    let for_ = vec![argument(40, "cats scratch"), argument(41, "but purr")];
    let body = topic_get::get_topic_json(&topic, &against, &for_);
    let side = |args: &Vec<TopArgument>, opposing: i64, title: &str| {
        let mut m = serde_json::Map::new();
        m.insert("title".to_string(), Value::from(title));
        m.insert("opposingID".to_string(), Value::from(opposing));
        m.insert("arguments".to_string(), Value::Array(args.iter().map(argument_value).collect()));
        Value::Object(m)
    };
    let mut m = serde_json::Map::new();
    m.insert("name".to_string(), Value::from(topic.name.clone()));
    m.insert("for".to_string(), side(&for_, 20, "Cats"));
    m.insert("against".to_string(), side(&against, 10, "Dogs"));
    assert_eq!(body, Value::Object(m).to_string());
}

#[test]
fn topic_id_parsing() {
    assert_eq!(topic_get::get_id("-3").ok(), Some(-3));
    let r = topic_get::get_id("").err().unwrap();
    assert_response(&r, Status::BadRequest, "Invalid topic id: cannot parse integer from empty string");
}

#[test]
fn topics_outcomes_and_body() {
    let list = vec![topics::TopicSummary { name: "a".to_string(), id: 1 }, topics::TopicSummary { name: "b/é".to_string(), id: 2 }];
    let r = topics::topics_response(&list);
    let items: Vec<Value> = list
        .iter()
        .map(|t| {
            let mut m = serde_json::Map::new();
            m.insert("name".to_string(), Value::from(t.name.clone()));
            m.insert("id".to_string(), Value::from(t.id));
            Value::Object(m)
        })
        .collect();
    let mut m = serde_json::Map::new();
    m.insert("topics".to_string(), Value::Array(items));
    assert_response(&r, Status::Success, &Value::Object(m).to_string());
    assert_eq!(topics::get_topics(Ok(list)).ok().unwrap().len(), 2);
    let r = topics::get_topics(Err(row_not_found())).err().unwrap();
    assert_response(&r, Status::NotFound, "No topics avaliable");
    let r = topics::get_topics(Err(other_error())).err().unwrap();
    assert_response(&r, Status::InternalServerError, "Error retrieving topic");
}

#[test]
fn write_endpoints_accept_any_row_count() {
    assert!(arguments_post::check_errors(Ok(0)).is_ok());
    assert!(arguments_put::check_errors(Ok(3)).is_ok());
    assert!(topic_proposals_post::check_errors(Ok(1)).is_ok());
    let r = arguments_post::check_errors(Err(other_error())).err().unwrap();
    assert_response(&r, Status::InternalServerError, "Error creating argument");
    let r = arguments_put::check_errors(Err(other_error())).err().unwrap();
    assert_response(&r, Status::InternalServerError, "Error editing argument");
    let r = topic_proposals_post::check_errors(Err(other_error())).err().unwrap();
    assert_response(&r, Status::InternalServerError, "Error submitting topic proposal");
}

#[test]
fn delete_argument_outcomes() {
    assert_response(&arguments_delete::check_errors(Ok(1)), Status::Success, "");
    assert_response(&arguments_delete::check_errors(Ok(0)), Status::InternalServerError, "Unexpected number of rows affected: 0");
    assert_response(&arguments_delete::check_errors(Ok(12)), Status::InternalServerError, "Unexpected number of rows affected: 12");
    let r = arguments_delete::check_errors(Err(other_error()));
    assert_response(&r, Status::InternalServerError, "Error deleting argument: pool timed out while waiting for an open connection");
}

#[test]
fn topic_suggestion_outcomes() {
    assert_eq!(topic_suggestion_put::proposal_id("9").ok(), Some(9));
    let r = topic_suggestion_put::proposal_id("99999999999999999999").err().unwrap();
    assert_response(&r, Status::BadRequest, "Proposal ID is not an integer: number too large to fit in target type");
    assert_response(&topic_suggestion_put::check_errors(Ok(2)), Status::Success, "");
    assert_response(&topic_suggestion_put::check_errors(Err(other_error())), Status::InternalServerError, "Error accepting topic proposal");
}

#[test]
fn users_create_outcomes() {
    assert_response(&users_create::check_errors(Ok(1)), Status::Success, "");
    assert_response(&users_create::check_errors(Ok(2)), Status::InternalServerError, "2 rows affected");
    let dup = DbError { kind: DbErrorKind::Database(database_error(Some("23505"), None, true)), text: "dup".to_string() };
    assert_response(&users_create::check_errors(Err(dup)), Status::InternalServerError, "User already exists");
    let other_db = DbError { kind: DbErrorKind::Database(database_error(Some("23502"), None, false)), text: "null".to_string() };
    assert_response(
        &users_create::check_errors(Err(other_db)),
        Status::InternalServerError,
        "Database error: duplicate key value violates unique constraint",
    );
    assert_response(
        &users_create::check_errors(Err(other_error())),
        Status::InternalServerError,
        "Error inserting query: pool timed out while waiting for an open connection",
    );
}

#[test]
fn account_signup_outcomes() {
    assert_response(&account_signup::check_errors(Ok(1)), Status::Success, "{\"token\":0}");
    assert_response(&account_signup::check_errors(Ok(0)), Status::InternalServerError, "0 rows affected");
    let stored = account_signup::hash_new_password("pw", PEPPER).ok().unwrap();
    assert_eq!(eris::hashing_helper::check_hashes(b"pw", &stored, PEPPER).ok(), Some(true));
}

#[test]
fn users_login_outcomes() {
    assert_eq!(users_login::get_stored_password(Ok("h".to_string())).ok(), Some("h".to_string()));
    let r = users_login::get_stored_password(Err(row_not_found())).err().unwrap();
    assert_response(&r, Status::BadRequest, "User not found");
    let r = users_login::get_stored_password(Err(other_error())).err().unwrap();
    assert_response(&r, Status::InternalServerError, "Error retrieving user data: pool timed out while waiting for an open connection");
    let stored = eris::hashing_helper::hash_string("pw", PEPPER).ok().unwrap();
    assert_eq!(users_login::check_password("pw", &stored, PEPPER).ok(), Some(true));
    assert_eq!(users_login::check_password("px", &stored, PEPPER).ok(), Some(false));
    let r = users_login::check_password("pw", "nonsense", PEPPER).err().unwrap();
    assert_eq!(r.status, Status::InternalServerError);
    assert!(r.body.starts_with("Invalid stored password hash: "));
    assert!(users_login::require_correct_password(true).is_ok());
    let r = users_login::require_correct_password(false).err().unwrap();
    assert_response(&r, Status::BadRequest, "Password incorrect");
    let token = users_login::create_session_token();
    assert_eq!(token.bytes.len(), 16);
    assert_eq!(eris::session_helper::decode_cookie(&token.encoded), token.bytes);
    assert!(users_login::check_errors(Ok(1)).is_ok());
    let r = users_login::check_errors(Ok(0)).err().unwrap();
    assert_response(&r, Status::InternalServerError, "0 rows affected");
    let r = users_login::check_errors(Err(other_error())).err().unwrap();
    assert_response(&r, Status::InternalServerError, "Error saving session token: pool timed out while waiting for an open connection");
    assert_response(&users_login::token_response("ab=="), Status::Success, "{\"session_token\":\"ab==\"}");
}

#[test]
fn legacy_arguments_endpoint() {
    assert_response(&arguments::arguments_response(), Status::Success, "[{\"body\":\"Hello from Actix Rust with Postgresql!\"}]");
    let r = arguments::authorization_token(None).err().unwrap();
    assert_response(&r, Status::Unauthorized, "No session token provided");
    assert_eq!(arguments::authorization_token(Some("AQI=")).ok(), Some(vec![1, 2]));
    let r = arguments::authorization_token(Some("A")).err().unwrap();
    assert_eq!(r.status, Status::Unauthorized);
    assert!(r.body.starts_with("Session token decode error: "));
    assert_eq!(arguments::check_authorization(Ok(1)).ok(), Some(true));
    assert_eq!(arguments::check_authorization(Ok(0)).ok(), Some(false));
    let r = arguments::check_authorization(Err(other_error())).err().unwrap();
    assert_response(&r, Status::InternalServerError, "Error retrieving user data: pool timed out while waiting for an open connection");
}

#[test]
fn email_addresses_checked_in_order() {
    let (from, to) = email_addresses("server@eris.example", "user@example.com").ok().unwrap();
    assert_eq!(from.to_string(), "server@eris.example");
    assert_eq!(to.to_string(), "user@example.com");
    assert_eq!(email_addresses("not an address", "also bad").err(), Some(AddressProblem::From));
    assert_eq!(email_addresses("server@eris.example", "nope").err(), Some(AddressProblem::To));
}

#[test]
fn composed_email_carries_sender_recipient_and_subject() {
    let message = compose_email(
        "Eris".to_string(),
        "server@eris.example",
        "user@example.com",
        "Verify your account",
        "Click the link".to_string(),
    )
    .ok()
    .unwrap();
    let text = String::from_utf8(message.message().formatted()).unwrap();
    assert!(text.contains("From: Eris <server@eris.example>"));
    assert!(text.contains("To: user@example.com"));
    assert!(text.contains("Subject: Verify your account"));
    assert!(text.contains("Content-Type: text/plain"));
    assert!(text.contains("Click the link"));
}

#[test]
fn composed_email_reports_the_first_bad_address() {
    let bad_from = compose_email("Eris".to_string(), "nope", "also bad", "s", "b".to_string());
    assert_eq!(bad_from.err(), Some(AddressProblem::From));
    let bad_to = compose_email("Eris".to_string(), "server@eris.example", "nope", "s", "b".to_string());
    assert_eq!(bad_to.err(), Some(AddressProblem::To));
}

#[test]
fn failed_topic_read_is_answered_without_argument_reads() {
    let failed = get_topic(Err(row_not_found()));
    let r = topic_get::responses_to_read(failed).err().unwrap();
    assert_response(&r, Status::BadRequest, "Topic not found");
    let topic = Topic { name: "t".to_string(), for_argument: argument(1, "yes"), against_argument: argument(2, "no") };
    let (topic, reads) = topic_get::responses_to_read(Ok(topic)).ok().unwrap();
    assert_eq!(topic.name, "t");
    assert_eq!(reads.against_parent, 1);
    assert_eq!(reads.for_parent, 2);
}

#[test]
fn failed_argument_read_is_passed_on() {
    let topic = Topic { name: "t".to_string(), for_argument: argument(1, "yes"), against_argument: argument(2, "no") };
    let not_found = || eris::arguments_helper::get_response_arguments(Err(row_not_found()));
    let broken = || eris::arguments_helper::get_response_arguments(Err(other_error()));
    let r = topic_get::get_body(&topic, not_found(), broken()).err().unwrap();
    assert_response(&r, Status::BadRequest, "Argument not found");
    let r = topic_get::get_body(&topic, Ok(vec![]), broken()).err().unwrap();
    assert_response(&r, Status::InternalServerError, "Error retrieving argument");
    let body = topic_get::get_body(&topic, Ok(vec![argument(3, "a")]), Ok(vec![])).ok().unwrap();
    assert_eq!(body, topic_get::get_topic_json(&topic, &vec![argument(3, "a")], &vec![]));
}

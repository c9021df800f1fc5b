use argon2::password_hash::SaltString;
use argon2::{Algorithm, Argon2, Params, PasswordHasher, Version};
use eris::hashing_helper::{check_hashes, hash, hash_string, hash_with_salt, pepper_is_valid, session_token_hash};
use eris::response::Status;

const PEPPER: &str = "c29tZXNhbHRzb21lc2FsdA";

#[test]
fn hashed_password_checks_again() {
    let stored = hash_string("correct horse", PEPPER).ok().unwrap();
    assert!(stored.starts_with("$argon2id$"));
    assert_eq!(check_hashes(b"correct horse", &stored, PEPPER).ok(), Some(true));
    assert_eq!(check_hashes(b"wrong horse", &stored, PEPPER).ok(), Some(false));
}

#[test]
fn hash_of_bytes_checks_again() {
    let stored = hash(&[0, 1, 2, 255], PEPPER).ok().unwrap();
    assert_eq!(check_hashes(&[0, 1, 2, 255], &stored, PEPPER).ok(), Some(true));
}

#[test]
fn two_hashes_of_one_password_differ_by_salt() {
    let a = hash_string("pw", PEPPER).ok().unwrap();
    let b = hash_string("pw", PEPPER).ok().unwrap();
    assert_ne!(a, b);
}

#[test]
fn unreadable_stored_hash_is_server_error() {
    let err = check_hashes(b"pw", "not a phc string", PEPPER).err().unwrap();
    assert_eq!(err.status, Status::InternalServerError);
    assert_eq!(err.body, "Error checking hash, we're looking into it");
}

#[test]
fn hash_with_salt_is_argon2id_phc() {
    let expected = Argon2::default()
        .hash_password(b"secret", &SaltString::from_b64(PEPPER).unwrap())
        .unwrap()
        .serialize()
        .as_str()
        .to_owned();
    assert_eq!(hash_with_salt(b"secret", PEPPER, &[]).ok(), Some(expected));
}

#[test]
fn hash_with_salt_uses_the_secret_key() {
    let keyed = Argon2::new_with_secret(b"pepper", Algorithm::default(), Version::default(), Params::default()).unwrap();
    let expected = keyed
        .hash_password(b"secret", &SaltString::from_b64(PEPPER).unwrap())
        .unwrap()
        .serialize()
        .as_str()
        .to_owned();
    assert_eq!(hash_with_salt(b"secret", PEPPER, b"pepper").ok(), Some(expected.clone()));
    assert_ne!(hash_with_salt(b"secret", PEPPER, &[]).ok(), Some(expected));
}

#[test]
fn password_needs_the_same_pepper() {
    let stored = hash_string("pw", PEPPER).ok().unwrap();
    assert_eq!(check_hashes(b"pw", &stored, "another-pepper").ok(), Some(false));
    let unpeppered = Argon2::default()
        .hash_password(b"pw", &SaltString::from_b64(PEPPER).unwrap())
        .unwrap()
        .serialize()
        .as_str()
        .to_owned();
    assert_eq!(check_hashes(b"pw", &unpeppered, PEPPER).ok(), Some(false));
}

#[test]
fn too_short_salt_is_password_error() {
    // "abcd" is a valid B64 salt but decodes to fewer bytes than Argon2 needs.
    let err = hash_with_salt(b"secret", "abcd", &[]).err().unwrap();
    assert_eq!(err.status, Status::InternalServerError);
    assert_eq!(err.body, "Password error");
}

#[test]
fn stored_hashes_are_argon2id_phc_strings() {
    assert!(hash_string("pw", PEPPER).ok().unwrap().starts_with("$argon2id$v=19$"));
    let session = session_token_hash(b"tok", PEPPER).ok().unwrap();
    assert!(session.starts_with("$argon2id$v=19$"));
    assert_eq!(check_hashes(b"tok", &session, "").ok(), Some(true));
}

#[test]
fn session_hash_is_deterministic() {
    let a = session_token_hash(b"token bytes", PEPPER).ok().unwrap();
    let b = session_token_hash(b"token bytes", PEPPER).ok().unwrap();
    assert_eq!(a, b);
    let c = session_token_hash(b"other bytes", PEPPER).ok().unwrap();
    assert_ne!(a, c);
}

#[test]
fn bad_pepper_is_configuration_error() {
    let err = session_token_hash(b"token", "bad pepper!").err().unwrap();
    assert_eq!(err.status, Status::InternalServerError);
    assert_eq!(err.body, "Bad server hashing configuration");
}

#[test]
fn pepper_validity_follows_salt_rules() {
    assert!(pepper_is_valid(PEPPER));
    assert!(pepper_is_valid("ab/+.-"));
    assert!(!pepper_is_valid("abc"));
    assert!(!pepper_is_valid("has space"));
    assert!(!pepper_is_valid(&"a".repeat(65)));
    assert!(pepper_is_valid(&"a".repeat(64)));
}

#[test]
fn password_hash_carries_head_and_a_fresh_16_byte_salt() {
    let stored = hash_string("pw", PEPPER).ok().unwrap();
    let head = "$argon2id$v=19$m=19456,t=2,p=1$";
    assert!(stored.starts_with(head));
    let rest = &stored[head.len()..];
    let salt = rest.split('$').next().unwrap();
    assert_eq!(salt.len(), 22);
    assert!(salt.chars().all(|c| c.is_ascii_alphanumeric() || c == '+' || c == '/'));
    assert_ne!(salt, PEPPER);
}

#[test]
fn session_hash_salt_is_the_pepper() {
    let session = session_token_hash(b"tok", PEPPER).ok().unwrap();
    let head = format!("$argon2id$v=19$m=19456,t=2,p=1${}$", PEPPER);
    assert!(session.starts_with(&head));
    assert!(session.len() > head.len());
}

#[test]
fn eight_byte_pepper_gives_session_hash() {
    // "AAAAAAAAAAA" is the canonical Base64 of eight zero bytes.
    assert!(session_token_hash(b"tok", "AAAAAAAAAAA").is_ok());
}

#[test]
fn non_canonical_pepper_is_password_error() {
    // A valid salt whose last digit carries bits past the last byte.
    let err = session_token_hash(b"tok", "c29tZXNhbHRzb21lc2FsdB").err().unwrap();
    assert_eq!(err.status, Status::InternalServerError);
    assert_eq!(err.body, "Password error");
}

//! Password and session-token hashing with Argon2id (PHC string format).

use argon2::password_hash::rand_core::OsRng;
use argon2::password_hash::SaltString;
use argon2::{Algorithm, Argon2, Params, PasswordHash, PasswordHasher, PasswordVerifier, Version};
use vstd::prelude::*;
use vstd::string::StringSliceAdditionalSpecFns;

use crate::response::{internal_server_error, is_response, Response, Status};

verus! {

/// `c` may stand in a PHC salt: `[a-zA-Z0-9/+.-]`.
pub open spec fn is_salt_char(c: char) -> bool {
    ||| ('a' <= c && c <= 'z')
    ||| ('A' <= c && c <= 'Z')
    ||| ('0' <= c && c <= '9')
    ||| c == '/'
    ||| c == '+'
    ||| c == '.'
    ||| c == '-'
}

/// `s` is accepted as a B64 salt: 4 to 64 characters, each a salt character.
pub open spec fn is_valid_salt(s: Seq<char>) -> bool {
    &&& 4 <= s.len() <= 64
    &&& forall|i: int| 0 <= i < s.len() ==> #[trigger] is_salt_char(s[i])
}

/// The PHC string (or the error's text) that Argon2id with default parameters
/// and the secret key `secret` gives for `password` under the B64 salt `salt`.
pub uninterp spec fn spec_argon2_hash(password: Seq<u8>, salt: Seq<char>, secret: Seq<u8>) -> Result<Seq<char>, Seq<char>>;

/// Whether `stored` parses as a PHC string (or the parse error's text).
pub uninterp spec fn spec_phc_parse(stored: Seq<char>) -> Result<(), Seq<char>>;

/// Whether Argon2 with the secret key `secret` accepts `password` against the
/// PHC string `stored`.
pub uninterp spec fn spec_argon2_verify(password: Seq<u8>, stored: Seq<char>, secret: Seq<u8>) -> bool;

/// The view of a result whose both sides are strings.
pub open spec fn text_result(r: Result<String, String>) -> Result<Seq<char>, Seq<char>> {
    match r {
        Ok(s) => Ok(s@),
        Err(e) => Err(e@),
    }
}

/// The view of a result whose error side is a string.
pub open spec fn unit_text_result(r: Result<(), String>) -> Result<(), Seq<char>> {
    match r {
        Ok(()) => Ok(()),
        Err(e) => Err(e@),
    }
}

/// `password` is accepted against the stored PHC string `stored` under the
/// secret key `secret`.
pub open spec fn password_matches(password: Seq<u8>, stored: Seq<char>, secret: Seq<u8>) -> bool {
    spec_phc_parse(stored) is Ok && spec_argon2_verify(password, stored, secret)
}

/// `s` is a PHC string of Argon2id, version 19: it starts with `$argon2id$v=19$`.
pub open spec fn is_argon2id_phc(s: Seq<char>) -> bool {
    let prefix = "$argon2id$v=19$"@;
    &&& prefix.len() <= s.len()
    &&& s.subrange(0, prefix.len() as int) == prefix
}

/// The head of every PHC string that Argon2id with default parameters writes,
/// up to the salt: algorithm, version 19, and `m=19456,t=2,p=1`.
pub open spec fn argon2id_phc_head() -> Seq<char> {
    "$argon2id$v=19$m=19456,t=2,p=1$"@
}

/// `h` is the PHC string of Argon2id with default parameters under the salt
/// `salt`: the head, the salt, a `$`, then the (non-empty) hash.
pub open spec fn is_argon2id_phc_with_salt(h: Seq<char>, salt: Seq<char>) -> bool {
    let head = argon2id_phc_head() + salt + seq!['$'];
    &&& head.len() < h.len()
    &&& h.subrange(0, head.len() as int) == head
}

/// `c` is a digit of standard Base64: `[A-Za-z0-9+/]`.
pub open spec fn is_b64_char(c: char) -> bool {
    ||| ('A' <= c && c <= 'Z')
    ||| ('a' <= c && c <= 'z')
    ||| ('0' <= c && c <= '9')
    ||| c == '+'
    ||| c == '/'
}

/// The value of a standard Base64 digit.
pub open spec fn b64_value(c: char) -> int {
    if 'A' <= c && c <= 'Z' {
        c as int - 65
    } else if 'a' <= c && c <= 'z' {
        c as int - 97 + 26
    } else if '0' <= c && c <= '9' {
        c as int - 48 + 52
    } else if c == '+' {
        62
    } else {
        63
    }
}

/// `s` is the unpadded standard Base64 of 16 bytes: 22 digits, the last of
/// which carries only two bits (its low four bits are zero).
pub open spec fn is_b64_of_16_bytes(s: Seq<char>) -> bool {
    &&& s.len() == 22
    &&& forall|i: int| 0 <= i < s.len() ==> #[trigger] is_b64_char(s[i])
    &&& b64_value(s[21]) % 16 == 0
}

/// The number of bytes that `n` digits of unpadded Base64 decode to.
pub open spec fn b64_decoded_len(n: int) -> int {
    3 * (n / 4) + (3 * (n % 4)) / 4
}

/// `s` is canonical unpadded standard Base64: digits only, no length that
/// leaves a lone digit, and no bits set past the last byte in the last digit.
pub open spec fn is_canonical_b64(s: Seq<char>) -> bool {
    &&& s.len() % 4 != 1
    &&& forall|i: int| 0 <= i < s.len() ==> #[trigger] is_b64_char(s[i])
    &&& s.len() % 4 == 2 ==> b64_value(s[s.len() - 1]) % 16 == 0
    &&& s.len() % 4 == 3 ==> b64_value(s[s.len() - 1]) % 4 == 0
}

/// `s` is a salt that Argon2 hashes with: a valid B64 salt that decodes to at
/// least 8 bytes (Argon2's shortest salt).
pub open spec fn is_argon2_salt(s: Seq<char>) -> bool {
    &&& is_valid_salt(s)
    &&& is_canonical_b64(s)
    &&& b64_decoded_len(s.len() as int) >= 8
}

/// The Base64 of 16 bytes is a salt that Argon2 hashes with.
pub proof fn lemma_b64_of_16_bytes_is_argon2_salt(s: Seq<char>)
    requires
        is_b64_of_16_bytes(s),
    ensures
        is_argon2_salt(s),
{
    assert forall|i: int| 0 <= i < s.len() implies #[trigger] is_salt_char(s[i]) by {
        assert(is_b64_char(s[i]));
    }
}

/// Argon2's limit on the length of a password and of a secret key.
pub open spec fn within_argon2_limits(password: Seq<u8>, secret: Seq<u8>) -> bool {
    password.len() <= 0xFFFF_FFFF && secret.len() <= 0xFFFF_FFFF
}

/// A fresh random salt.
///
/// Trusted: calls `SaltString::generate` with the operating system's random
/// source. The source shows that it B64-encodes 16 random bytes without padding,
/// which gives 22 characters of `[A-Za-z0-9+/]`, the last carrying two bits;
/// which salt comes out is not stated.
#[verifier::external_body]
pub(crate) fn generate_salt() -> (r: String)
    ensures
        is_valid_salt(r@),
        is_b64_of_16_bytes(r@),
{
    SaltString::generate(&mut OsRng).as_str().to_owned()
}

/// Whether `salt` is accepted as a B64 salt.
///
/// Trusted: calls `SaltString::from_b64`, whose source accepts exactly the
/// strings of 4 to 64 bytes made of `[a-zA-Z0-9/+.-]`.
#[verifier::external_body]
fn salt_from_b64_is_ok(salt: &str) -> (r: bool)
    ensures
        r == is_valid_salt(salt@),
{
    SaltString::from_b64(salt).is_ok()
}

/// Hashes `password` with Argon2id (default parameters, secret key `secret`)
/// under `salt` and serialises the hash as a PHC string.
///
/// Trusted: calls `Argon2::new_with_secret` (default algorithm, version and
/// parameters), `PasswordHasher::hash_password` and `PasswordHash::serialize`; the
/// salt is turned into a `SaltString` by `SaltString::from_b64`, which the `requires`
/// makes succeed. The result, an error's text included, is named by
/// `spec_argon2_hash`. Besides, the contract states what
/// `PasswordVerifier::verify_password` is for: the PHC string produced for a
/// password parses again and verifies that same password under the same secret;
/// and, as `PasswordHash`'s `Display` writes the algorithm (`argon2id`, the default),
/// the version (19, the default), the parameters (`m=19456,t=2,p=1`, the defaults)
/// and the salt as given before the hash, it starts with
/// `$argon2id$v=19$m=19456,t=2,p=1$<salt>$`. The salt is decoded by base64ct's
/// unpadded standard decoder, which accepts exactly canonical Base64 (its last block
/// must encode back to itself); Argon2 then asks for at least 8 salt bytes, and
/// a salt of at most 64 digits decodes to at most 48. So with a canonical B64 salt
/// of at least 8 bytes, and a password and a secret within Argon2's length limits,
/// the source has no failing path.
/// (With an empty secret the hash is the one `Argon2::default()` gives: the
/// source feeds a missing and an empty secret alike into the initial hash.)
#[verifier::external_body]
pub(crate) fn argon2_hash_password(password: &[u8], salt: &str, secret: &[u8]) -> (r: Result<String, String>)
    requires
        is_valid_salt(salt@),
    ensures
        text_result(r) == spec_argon2_hash(password@, salt@, secret@),
        r matches Ok(h) ==> password_matches(password@, h@, secret@),
        r matches Ok(h) ==> is_argon2id_phc(h@),
        r matches Ok(h) ==> is_argon2id_phc_with_salt(h@, salt@),
        is_argon2_salt(salt@) && within_argon2_limits(password@, secret@) ==> r is Ok,
{
    let argon2 = match Argon2::new_with_secret(secret, Algorithm::default(), Version::default(), Params::default()) {
        Ok(argon2) => argon2,
        Err(e) => return Err(e.to_string()),
    };
    match SaltString::from_b64(salt) {
        Ok(salt) => match argon2.hash_password(password, &salt) {
            Ok(hash) => Ok(hash.serialize().as_str().to_owned()),
            Err(e) => Err(e.to_string()),
        },
        Err(e) => Err(e.to_string()),
    }
}

/// Parses `stored` as a PHC string.
///
/// Trusted: calls `PasswordHash::new`; the outcome (and the error's text) is
/// named by `spec_phc_parse`.
#[verifier::external_body]
pub(crate) fn phc_parse(stored: &str) -> (r: Result<(), String>)
    ensures
        unit_text_result(r) == spec_phc_parse(stored@),
{
    match PasswordHash::new(stored) {
        Ok(_) => Ok(()),
        Err(e) => Err(e.to_string()),
    }
}

/// Checks `password` against the PHC string `stored` under the secret key `secret`.
///
/// Trusted: calls `PasswordVerifier::verify_password` of `Argon2::new_with_secret`
/// (default algorithm, version and parameters) on `PasswordHash::new(stored)`,
/// which the `requires` makes succeed; the answer (false where the secret is
/// refused) is named by `spec_argon2_verify`.
#[verifier::external_body]
pub(crate) fn argon2_verify(password: &[u8], stored: &str, secret: &[u8]) -> (r: bool)
    requires
        spec_phc_parse(stored@) is Ok,
    ensures
        r == spec_argon2_verify(password@, stored@, secret@),
{
    let argon2 = match Argon2::new_with_secret(secret, Algorithm::default(), Version::default(), Params::default()) {
        Ok(argon2) => argon2,
        Err(_) => return false,
    };
    match PasswordHash::new(stored) {
        Ok(hash) => argon2.verify_password(password, &hash).is_ok(),
        Err(_) => false,
    }
}

/// The answer to a failed hashing.
pub open spec fn is_password_error(r: Response) -> bool {
    is_response(r, Status::InternalServerError, "Password error"@)
}

/// Hashes `input` under the given salt and secret key: the PHC string, or a
/// `500 Password error` where Argon2 refuses.
pub fn hash_with_salt(input: &[u8], salt: &str, secret: &[u8]) -> (r: Result<String, Response>)
    requires
        is_valid_salt(salt@),
    ensures
        spec_argon2_hash(input@, salt@, secret@) matches Ok(h) ==> (r matches Ok(s) && s@ == h),
        spec_argon2_hash(input@, salt@, secret@) is Err ==> (r matches Err(e) && is_password_error(e)),
        r matches Ok(s) ==> password_matches(input@, s@, secret@),
        r matches Ok(s) ==> is_argon2id_phc(s@),
        r matches Ok(s) ==> is_argon2id_phc_with_salt(s@, salt@),
        is_argon2_salt(salt@) && within_argon2_limits(input@, secret@) ==> r is Ok,
{
    match argon2_hash_password(input, salt, secret) {
        Ok(h) => Ok(h),
        Err(_) => Err(internal_server_error("Password error")),
    }
}

/// Hashes a password with Argon2id under a fresh random salt and the pepper as
/// Argon2's secret key: Argon2id(password, salt, pepper). Whatever salt is drawn,
/// a PHC string that comes out verifies `input` again under that pepper.
pub fn hash(input: &[u8], pepper: &str) -> (r: Result<String, Response>)
    ensures
        r matches Ok(s) ==> password_matches(input@, s@, pepper.spec_bytes()),
        r matches Ok(s) ==> is_argon2id_phc(s@),
        r matches Ok(s) ==> exists|salt: Seq<char>|
            is_b64_of_16_bytes(salt) && is_argon2id_phc_with_salt(s@, salt)
                && #[trigger] spec_argon2_hash(input@, salt, pepper.spec_bytes()) == Ok::<Seq<char>, Seq<char>>(s@),
        within_argon2_limits(input@, pepper.spec_bytes()) ==> r is Ok,
        r matches Err(e) ==> is_password_error(e),
{
    let salt = generate_salt();
    proof {
        lemma_b64_of_16_bytes_is_argon2_salt(salt@);
    }
    let r = hash_with_salt(input, salt.as_str(), pepper.as_bytes());
    proof {
        if r is Ok {
            assert(spec_argon2_hash(input@, salt@, pepper.spec_bytes()) == Ok::<Seq<char>, Seq<char>>(r->Ok_0@));
        }
    }
    r
}

/// Hashes the UTF-8 bytes of `input`, as `hash` does.
pub fn hash_string(input: &str, pepper: &str) -> (r: Result<String, Response>)
    ensures
        r matches Ok(s) ==> password_matches(input.spec_bytes(), s@, pepper.spec_bytes()),
        r matches Ok(s) ==> is_argon2id_phc(s@),
        r matches Ok(s) ==> exists|salt: Seq<char>|
            is_b64_of_16_bytes(salt) && is_argon2id_phc_with_salt(s@, salt)
                && #[trigger] spec_argon2_hash(input.spec_bytes(), salt, pepper.spec_bytes())
                == Ok::<Seq<char>, Seq<char>>(s@),
        within_argon2_limits(input.spec_bytes(), pepper.spec_bytes()) ==> r is Ok,
        r matches Err(e) ==> is_password_error(e),
{
    let bytes = input.as_bytes();
    hash(bytes, pepper)
}

/// The PHC string that `session_token_hash` gives for `input` under `pepper`,
/// or `None` where it answers with an error.
pub open spec fn session_hash_spec(input: Seq<u8>, pepper: Seq<char>) -> Option<Seq<char>> {
    if is_valid_salt(pepper) {
        match spec_argon2_hash(input, pepper, Seq::empty()) {
            Ok(h) => Some(h),
            Err(_) => None,
        }
    } else {
        None
    }
}

/// The message of the `500` answer where `session_token_hash` fails.
pub open spec fn session_hash_failure(pepper: Seq<char>) -> Seq<char> {
    if is_valid_salt(pepper) {
        "Password error"@
    } else {
        "Bad server hashing configuration"@
    }
}

/// Hashes a session token with Argon2id and the server's pepper as the salt
/// (no secret key), so that one token always gives one hash. A pepper that is no valid salt is answered with
/// `500 Bad server hashing configuration`, a refused hash with `500 Password error`; a
/// pepper that is the canonical B64 of at least 8 bytes always gives a hash.
pub fn session_token_hash(input: &[u8], pepper: &str) -> (r: Result<String, Response>)
    ensures
        session_hash_spec(input@, pepper@) matches Some(h) ==> (r matches Ok(s) && s@ == h),
        session_hash_spec(input@, pepper@) is None ==> (r matches Err(e)
            && is_response(e, Status::InternalServerError, session_hash_failure(pepper@))),
        r matches Ok(s) ==> password_matches(input@, s@, Seq::empty()),
        r matches Ok(s) ==> is_argon2id_phc(s@),
        r matches Ok(s) ==> is_argon2id_phc_with_salt(s@, pepper@),
        is_argon2_salt(pepper@) && input@.len() <= 0xFFFF_FFFF ==> r is Ok,
{
    if !salt_from_b64_is_ok(pepper) {
        return Err(internal_server_error("Bad server hashing configuration"));
    }
    let no_secret: [u8; 0] = [];
    let r = hash_with_salt(input, pepper, &no_secret);
    assert(no_secret@ =~= Seq::<u8>::empty());
    r
}

/// What checking `password` against `stored` under the secret key `secret`
/// answers: Argon2's verdict, or `None` where `stored` is no PHC string.
pub open spec fn check_outcome(password: Seq<u8>, stored: Seq<char>, secret: Seq<u8>) -> Option<bool> {
    if spec_phc_parse(stored) is Ok {
        Some(spec_argon2_verify(password, stored, secret))
    } else {
        None
    }
}

/// Checks `unhashed_bytes` against the PHC string `stored_hash` under the
/// pepper: `Ok` with Argon2's answer, or `500` where the stored string is no PHC string.
pub fn check_hashes(unhashed_bytes: &[u8], stored_hash: &str, pepper: &str) -> (r: Result<bool, Response>)
    ensures
        check_outcome(unhashed_bytes@, stored_hash@, pepper.spec_bytes()) matches Some(b)
            ==> r == Ok::<bool, Response>(b),
        check_outcome(unhashed_bytes@, stored_hash@, pepper.spec_bytes()) is None ==> (r matches Err(e) && is_response(
            e,
            Status::InternalServerError,
            "Error checking hash, we're looking into it"@,
        )),
        r matches Ok(b) ==> b == password_matches(unhashed_bytes@, stored_hash@, pepper.spec_bytes()),
{
    match phc_parse(stored_hash) {
        Err(_) => Err(internal_server_error("Error checking hash, we're looking into it")),
        Ok(()) => Ok(argon2_verify(unhashed_bytes, stored_hash, pepper.as_bytes())),
    }
}

/// Whether `pepper` can serve as the session-token salt (the server refuses to
/// start otherwise).
pub fn pepper_is_valid(pepper: &str) -> (r: bool)
    ensures
        r == is_valid_salt(pepper@),
{
    salt_from_b64_is_ok(pepper)
}

} // verus!

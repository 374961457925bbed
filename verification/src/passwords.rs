//! Password hashing and checking with Argon2 (PHC string format).
use vstd::prelude::*;
use argon2::password_hash::{Error as HashError, PasswordHash, PasswordHasher, PasswordVerifier, SaltString};

verus! {

#[verifier::external_type_specification]
#[verifier::external_body]
pub struct ExHashError(HashError);

#[verifier::external_type_specification]
#[verifier::external_body]
pub struct ExPasswordHash<'a>(PasswordHash<'a>);

/// Whether `PasswordHash::new` parses the text as a PHC password hash string.
pub uninterp spec fn phc_valid(hash: Seq<char>) -> bool;

/// Whether Argon2 (default parameters) verifies `password` against the PHC
/// hash string `hash`.
pub uninterp spec fn argon2_accepts(password: Seq<char>, hash: Seq<char>) -> bool;

/// Whether `s` begins with `p`.
pub open spec fn has_prefix(s: Seq<char>, p: Seq<char>) -> bool {
    p.len() <= s.len() && s.subrange(0, p.len() as int) == p
}

/// The beginning of every hash that Argon2 with default parameters writes.
pub open spec fn argon2id_tag() -> Seq<char> {
    seq!['$', 'a', 'r', 'g', 'o', 'n', '2', 'i', 'd']
}

/// The bytes of a character in UTF-8.
pub open spec fn utf8_char_len(c: char) -> nat {
    if (c as u32) < 0x80 {
        1
    } else if (c as u32) < 0x800 {
        2
    } else if (c as u32) < 0x10000 {
        3
    } else {
        4
    }
}

/// The bytes of a text in UTF-8.
pub open spec fn utf8_len(s: Seq<char>) -> nat
    decreases s.len(),
{
    if s.len() == 0 {
        0
    } else {
        utf8_len(s.drop_last()) + utf8_char_len(s.last())
    }
}

/// Calls `PasswordHasher::hash_password` of `Argon2::default()` with a salt
/// from `SaltString::generate` (the operating system's random source), and
/// writes the hash as its PHC string. Claims: a hash it returns is a PHC
/// string that starts with `$argon2id` and that Argon2 verifies `password`
/// against; hashing succeeds for every password of at most `u32::MAX`
/// UTF-8 bytes (the generated salt has 16 bytes, the default parameters are
/// valid, and the only other check is the password's length). The salt is
/// random: nothing is stated of it.
#[verifier::external_body]
fn argon2_hash(password: &str) -> (r: Result<String, HashError>)
    ensures
        r matches Ok(h) ==> {
            &&& phc_valid(h@)
            &&& argon2_accepts(password@, h@)
            &&& has_prefix(h@, argon2id_tag())
        },
        utf8_len(password@) <= 0xFFFF_FFFF ==> r is Ok,
{
    let salt = SaltString::generate(&mut argon2::password_hash::rand_core::OsRng);
    match argon2::Argon2::default().hash_password(password.as_bytes(), &salt) {
        Ok(h) => Ok(h.to_string()),
        Err(e) => Err(e),
    }
}

/// Calls `PasswordHash::new`. Claims: it succeeds exactly on the texts
/// named `phc_valid`, and Argon2 accepts no password against a text that
/// does not parse (verification parses the hash first).
#[verifier::external_body]
fn parse_password_hash<'a>(hash: &'a str) -> (r: Result<PasswordHash<'a>, HashError>)
    ensures
        r is Ok <==> phc_valid(hash@),
        r is Err ==> forall|p: Seq<char>| !argon2_accepts(p, hash@),
{
    PasswordHash::new(hash)
}

/// Calls `PasswordVerifier::verify_password` of `Argon2::default()` on the
/// hash that `hash` holds (converted with `PasswordHash::new`). Claims: it
/// succeeds exactly when `argon2_accepts`, and then the hash text is valid.
#[verifier::external_body]
fn argon2_verify(password: &str, hash: &str) -> (r: Result<(), HashError>)
    ensures
        r is Ok <==> argon2_accepts(password@, hash@),
        r is Ok ==> phc_valid(hash@),
{
    let parsed = PasswordHash::new(hash)?;
    argon2::Argon2::default().verify_password(password.as_bytes(), &parsed)
}

/// Calls `to_string` (its `Display`) on a hashing error. Nothing is stated
/// of the text.
#[verifier::external_body]
fn hash_error_text(e: &HashError) -> String {
    e.to_string()
}

/// `prefix` followed by `rest`.
fn prefixed(prefix: &str, rest: &str) -> (r: String)
    ensures
        r@ == prefix@ + rest@,
{
    let mut s = String::from_str(prefix);
    s.append(rest);
    s
}

/// Hashes a password with Argon2 and a fresh random salt.
///
/// Hashing succeeds for every password of at most `u32::MAX` UTF-8 bytes.
/// A hash it returns is verified by `verify_password` against the same
/// password; a failure is reported as `Failed to hash password: <reason>`.
pub fn encrypt_password(password: String) -> (r: Result<String, String>)
    ensures
        utf8_len(password@) <= 0xFFFF_FFFF ==> r is Ok,
        r matches Ok(h) ==> {
            &&& phc_valid(h@)
            &&& argon2_accepts(password@, h@)
            &&& has_prefix(h@, argon2id_tag())
        },
        r matches Err(m) ==> has_prefix(m@, "Failed to hash password: "@),
{
    match argon2_hash(password.as_str()) {
        Ok(h) => Ok(h),
        Err(e) => {
            let reason = hash_error_text(&e);
            let m = prefixed("Failed to hash password: ", reason.as_str());
            assert(m@.subrange(0, "Failed to hash password: "@.len() as int)
                =~= "Failed to hash password: "@);
            Err(m)
        },
    }
}

/// Checks a password against a stored Argon2 hash.
///
/// Succeeds exactly when Argon2 accepts the password for the hash. A hash
/// that does not parse gives `Invalid hash format: <reason>`; a password
/// that does not match gives `Passwords do not match: <reason>`.
pub fn verify_password(password: String, hash: String) -> (r: Result<(), String>)
    ensures
        r is Ok <==> argon2_accepts(password@, hash@),
        !phc_valid(hash@) ==> (r matches Err(m) && has_prefix(m@, "Invalid hash format: "@)),
        phc_valid(hash@) && !argon2_accepts(password@, hash@) ==> (r matches Err(m)
            && has_prefix(m@, "Passwords do not match: "@)),
{
    match parse_password_hash(hash.as_str()) {
        Ok(_parsed) => {},
        Err(e) => {
            let reason = hash_error_text(&e);
            let m = prefixed("Invalid hash format: ", reason.as_str());
            assert(m@.subrange(0, "Invalid hash format: "@.len() as int)
                =~= "Invalid hash format: "@);
            return Err(m);
        },
    }
    match argon2_verify(password.as_str(), hash.as_str()) {
        Ok(()) => Ok(()),
        Err(e) => {
            let reason = hash_error_text(&e);
            let m = prefixed("Passwords do not match: ", reason.as_str());
            assert(m@.subrange(0, "Passwords do not match: "@.len() as int)
                =~= "Passwords do not match: "@);
            Err(m)
        },
    }
}

} // verus!

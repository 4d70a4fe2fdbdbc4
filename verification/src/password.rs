//! Password hashing and checking with Argon2 (argon2 and password-hash crates).
use vstd::prelude::*;
use vstd::utf8::encode_utf8;
use argon2::password_hash::rand_core::OsRng;
use argon2::password_hash::{PasswordHash, PasswordHasher, PasswordVerifier, Salt, SaltString};
use argon2::Argon2;

verus! {

/// The `Result` of strings seen through the views of its strings.
pub open spec fn view_str_result(r: Result<String, String>) -> Result<Seq<char>, Seq<char>> {
    match r {
        Ok(s) => Ok(s@),
        Err(e) => Err(e@),
    }
}

/// The `Result` of a unit or a message, the message seen through its view.
pub open spec fn view_unit_result(r: Result<(), String>) -> Result<(), Seq<char>> {
    match r {
        Ok(()) => Ok(()),
        Err(e) => Err(e@),
    }
}

/// What `Argon2::default().hash_password(password.as_bytes(), salt)` gives, as a PHC string or the
/// text of its error, for a password and a salt in the B64 form.
pub uninterp spec fn argon2_hash_result(password: Seq<char>, salt: Seq<char>) -> Result<Seq<char>, Seq<char>>;

/// What `PasswordHash::new(phc)` gives: success or the text of its error.
pub uninterp spec fn phc_parse_result(phc: Seq<char>) -> Result<(), Seq<char>>;

/// What `Argon2::default().verify_password(password.as_bytes(), &PasswordHash::new(phc))` gives:
/// success or the text of its error.
pub uninterp spec fn argon2_verify_result(password: Seq<char>, phc: Seq<char>) -> Result<(), Seq<char>>;

/// The longest password, in bytes of UTF-8, that Argon2 hashes.
pub const MAX_PASSWORD_BYTES: u64 = 0xFFFF_FFFF;

/// The text begins as a PHC string of Argon2id does: `$argon2id$`.
pub open spec fn has_argon2id_prefix(s: Seq<char>) -> bool {
    s.len() >= 10 && s.subrange(0, 10) == "$argon2id$"@
}

/// A fresh salt: `SaltString::generate(&mut OsRng)`, in its B64 form.
///
/// Trusted: the salt is the B64 encoding of 16 random bytes, 22 characters long, so
/// `Salt::from_b64` reads it back and Argon2 (whose salt must be 8 to `0xFFFF_FFFF`
/// bytes) hashes any password of at most `0xFFFF_FFFF` bytes with it. Its digits are
/// random and are not stated. `OsRng` panics when the operating system's random source
/// fails; that depends on the machine, not on an input, and is not excluded here.
#[verifier::external_body]
pub(crate) fn generate_salt() -> (salt: String)
    ensures
        salt@.len() == 22,
        forall|password: Seq<char>|
            encode_utf8(password).len() <= MAX_PASSWORD_BYTES ==> (#[trigger] argon2_hash_result(
                password,
                salt@,
            )) is Ok,
{
    SaltString::generate(&mut OsRng).as_str().to_string()
}

/// `Argon2::default().hash_password(password.as_bytes(), salt)`, turned into its PHC string.
///
/// Trusted: the result is the named `argon2_hash_result` of the password and salt; and,
/// as the argon2 crate's documentation shows, a PHC string that it gives parses with
/// `PasswordHash::new` and the same password verifies against it. `PasswordHash`
/// writes `$`, then the algorithm, which for `Argon2::default()` is `argon2id`, then `$`.
/// The salt is read with `Salt::from_b64`, whose error is passed on as text.
#[verifier::external_body]
pub(crate) fn hash_password(password: &str, salt: &str) -> (r: Result<String, String>)
    ensures
        view_str_result(r) == argon2_hash_result(password@, salt@),
        r matches Ok(phc) ==> phc_parse_result(phc@) is Ok,
        r matches Ok(phc) ==> argon2_verify_result(password@, phc@) is Ok,
        r matches Ok(phc) ==> has_argon2id_prefix(phc@),
{
    let salt = match Salt::from_b64(salt) {
        Ok(salt) => salt,
        Err(e) => return Err(e.to_string()),
    };
    match Argon2::default().hash_password(password.as_bytes(), salt) {
        Ok(hash) => Ok(hash.to_string()),
        Err(e) => Err(e.to_string()),
    }
}

/// `PasswordHash::new(phc)`: whether a stored PHC string parses, or the text of its error.
///
/// Trusted: the result is the named `phc_parse_result` of the string.
#[verifier::external_body]
pub(crate) fn parse_password_hash(phc: &str) -> (r: Result<(), String>)
    ensures
        view_unit_result(r) == phc_parse_result(phc@),
{
    match PasswordHash::new(phc) {
        Ok(_) => Ok(()),
        Err(e) => Err(e.to_string()),
    }
}

/// `Argon2::default().verify_password(password.as_bytes(), &hash)`, with the PHC string read into
/// `hash` by `PasswordHash::new`, which the precondition says succeeds.
///
/// Trusted: the result is the named `argon2_verify_result` of the password and string.
#[verifier::external_body]
pub(crate) fn verify_password(password: &str, phc: &str) -> (r: Result<(), String>)
    requires
        phc_parse_result(phc@) is Ok,
    ensures
        view_unit_result(r) == argon2_verify_result(password@, phc@),
{
    match PasswordHash::new(phc) {
        Ok(hash) => match Argon2::default().verify_password(password.as_bytes(), &hash) {
            Ok(()) => Ok(()),
            Err(e) => Err(e.to_string()),
        },
        Err(e) => Err(e.to_string()),
    }
}

} // verus!

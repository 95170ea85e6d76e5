//! Password hashing with Argon2 (PHC string format).
use vstd::prelude::*;
use vstd::utf8::encode_utf8;
use argon2::password_hash::SaltString;
use argon2::{PasswordHasher, PasswordVerifier};
use crate::errors::AppError;

verus! {

broadcast use vstd::string::group_string_axioms;

/// Whether Argon2 (`Argon2::default().verify_password`) accepts the password
/// bytes for a well-formed PHC string.
pub uninterp spec fn argon2_accepts(password: Seq<u8>, hash: Seq<char>) -> bool;

/// Whether `argon2::PasswordHash::new` accepts a text as a PHC string.
pub uninterp spec fn phc_well_formed(hash: Seq<char>) -> bool;

/// The value of a character of the B64 alphabet (standard Base64:
/// `A`-`Z`, `a`-`z`, `0`-`9`, `+`, `/`).
pub open spec fn b64_value(c: char) -> Option<nat> {
    if 'A' <= c && c <= 'Z' {
        Some((c as int - 'A' as int) as nat)
    } else if 'a' <= c && c <= 'z' {
        Some((c as int - 'a' as int + 26) as nat)
    } else if '0' <= c && c <= '9' {
        Some((c as int - '0' as int + 52) as nat)
    } else if c == '+' {
        Some(62)
    } else if c == '/' {
        Some(63)
    } else {
        None
    }
}

/// A salt as `SaltString::generate` writes it: 16 bytes in unpadded B64,
/// that is 22 characters of the alphabet, the last of which carries two bits
/// (its value is a multiple of 16).
pub open spec fn generated_salt(s: Seq<char>) -> bool {
    &&& s.len() == 22
    &&& forall|i: int| 0 <= i < s.len() ==> (#[trigger] b64_value(s[i])) is Some
    &&& b64_value(s[21])->Some_0 % 16 == 0
}

/// `SaltString::generate(&mut OsRng)`, as its text (`SaltString::as_str`).
///
/// Claims only the form of the salt: 16 random bytes encoded in unpadded B64.
/// Its value comes from the operating system's random number generator.
#[verifier::external_body]
fn generate_salt() -> (r: String)
    ensures
        generated_salt(r@),
{
    SaltString::generate(&mut argon2::password_hash::rand_core::OsRng).as_str().to_string()
}

/// The start of every PHC string that `Argon2::default()` writes: algorithm
/// argon2id, version 19, 19456 KiB of memory, 2 passes, 1 lane.
pub open spec fn argon2id_prefix() -> Seq<char> {
    "$argon2id$v=19$m=19456,t=2,p=1$"@
}

/// The form of an Argon2 PHC string made with the default parameters: the
/// prefix, a salt of the generated form, `$`, then the hash.
pub open spec fn argon2_phc_form(h: Seq<char>) -> bool {
    exists|salt: Seq<char>, rest: Seq<char>|
        generated_salt(salt) && h == argon2id_prefix() + salt + seq!['$'] + rest
}

/// `Argon2::default().hash_password(password, &SaltString::from_b64(salt)?)`,
/// written out with `to_string` as a PHC string.
///
/// Claims that with a salt of the generated form the hash is made whenever
/// the password has at most `0xFFFF_FFFF` bytes (Argon2's limit; the default
/// parameters and a 16-byte salt meet every other check), and that the PHC
/// string made parses and verifies the same password, as the crate's
/// documentation shows. The string is written as `PasswordHash`'s `Display`
/// writes it: `$argon2id$v=19$` and the default parameters
/// `m=19456,t=2,p=1`, then `$`, the salt, `$` and the hash.
#[verifier::external_body]
fn argon2_hash(password: &[u8], salt: &str) -> (r: Option<String>)
    requires
        generated_salt(salt@),
    ensures
        password@.len() <= 0xFFFF_FFFF ==> r is Some,
        r matches Some(h) ==> phc_well_formed(h@) && argon2_accepts(password@, h@),
        r matches Some(h) ==> exists|rest: Seq<char>|
            h@ == argon2id_prefix() + salt@ + seq!['$'] + rest,
{
    let salt = SaltString::from_b64(salt).ok()?;
    match argon2::Argon2::default().hash_password(password, &salt) {
        Ok(h) => Some(h.to_string()),
        Err(_) => None,
    }
}

/// `argon2::PasswordHash::new(hash).is_ok()`.
///
/// Claims that the answer is the one named by `phc_well_formed`.
#[verifier::external_body]
fn phc_parses(hash: &str) -> (r: bool)
    ensures
        r == phc_well_formed(hash@),
{
    argon2::PasswordHash::new(hash).is_ok()
}

/// `Argon2::default().verify_password(password, &PasswordHash::new(hash)?)`
/// for a hash that parses.
///
/// Claims that the answer is the one named by `argon2_accepts`.
#[verifier::external_body]
fn argon2_verify(password: &[u8], hash: &str) -> (r: bool)
    requires
        phc_well_formed(hash@),
    ensures
        r == argon2_accepts(password@, hash@),
{
    match argon2::PasswordHash::new(hash) {
        Ok(parsed) => argon2::Argon2::default().verify_password(password, &parsed).is_ok(),
        Err(_) => false,
    }
}

/// Hashes a password with a fresh random salt. The hash is made for every
/// password of at most `0xFFFF_FFFF` bytes; it is an argon2id PHC string
/// with the default parameters, and it verifies that password.
pub fn hash_password(password: &str) -> (r: Result<String, AppError>)
    ensures
        encode_utf8(password@).len() <= 0xFFFF_FFFF ==> r is Ok,
        r matches Err(e) ==> e == AppError::InternalServerError,
        r matches Ok(h) ==> password_check(password@, h@) == Ok::<(), AppError>(()),
        r matches Ok(h) ==> argon2_phc_form(h@),
{
    let salt = generate_salt();
    match argon2_hash(password.as_bytes(), salt.as_str()) {
        Some(h) => {
            proof {
                let rest = choose|rest: Seq<char>|
                    h@ == argon2id_prefix() + salt@ + seq!['$'] + rest;
                assert(generated_salt(salt@) && h@ == argon2id_prefix() + salt@ + seq!['$'] + rest);
            }
            Ok(h)
        },
        None => Err(AppError::InternalServerError),
    }
}

/// The answer to a password check against a stored hash.
pub open spec fn password_check(password: Seq<char>, hash: Seq<char>) -> Result<(), AppError> {
    if !phc_well_formed(hash) {
        Err(AppError::InternalServerError)
    } else if argon2_accepts(encode_utf8(password), hash) {
        Ok(())
    } else {
        Err(AppError::InvalidCredentials)
    }
}

/// Checks a password against a stored hash: a hash that does not parse is
/// an internal error, a wrong password is `InvalidCredentials`.
pub fn verify_password(password: &str, hash: &str) -> (r: Result<(), AppError>)
    ensures
        r == password_check(password@, hash@),
{
    if !phc_parses(hash) {
        return Err(AppError::InternalServerError);
    }
    if argon2_verify(password.as_bytes(), hash) {
        Ok(())
    } else {
        Err(AppError::InvalidCredentials)
    }
}

} // verus!

//! Password hashing with Argon2 (PHC strings), for user accounts and the
//! administrator password.

use vstd::prelude::*;
use vstd::string::StringSliceAdditionalSpecFns;
use argon2::password_hash::{PasswordHash, PasswordHasher, PasswordVerifier, SaltString};
use argon2::password_hash::Error as HashError;
use crate::profile::{cleaned, clean_optional_text, text_of};

verus! {

/// The error type of the `password-hash` crate.
#[verifier::external_type_specification]
#[verifier::external_body]
pub struct ExPasswordHashError(HashError);

/// The PHC string that Argon2 with its default parameters makes of `password` and `salt`.
pub uninterp spec fn argon2_phc(password: Seq<u8>, salt: Seq<char>) -> Seq<char>;

/// Whether `phc` reads as a PHC string.
pub uninterp spec fn phc_parses(phc: Seq<char>) -> bool;

/// Whether Argon2 accepts `password` against the PHC string `phc`.
pub uninterp spec fn argon2_accepts(password: Seq<u8>, phc: Seq<char>) -> bool;

/// The character of the 6-bit value `n` in the standard Base64 alphabet:
/// `A`-`Z`, `a`-`z`, `0`-`9`, `+`, `/`.
pub open spec fn b64_char(n: int) -> char {
    if n < 26 {
        ((n + 65) as u8) as char
    } else if n < 52 {
        ((n + 71) as u8) as char
    } else if n < 62 {
        ((n - 4) as u8) as char
    } else if n == 62 {
        '+'
    } else {
        '/'
    }
}

/// The standard Base64 text of `b`, without padding: each group of three bytes
/// gives four characters, a last group of one or two bytes gives two or three,
/// its unused low bits zero.
pub open spec fn b64_unpadded(b: Seq<u8>) -> Seq<char>
    decreases b.len(),
{
    let x = if b.len() > 0 { b[0] as int } else { 0 };
    let y = if b.len() > 1 { b[1] as int } else { 0 };
    let z = if b.len() > 2 { b[2] as int } else { 0 };
    if b.len() == 0 {
        Seq::empty()
    } else if b.len() == 1 {
        seq![b64_char(x / 4), b64_char((x % 4) * 16)]
    } else if b.len() == 2 {
        seq![b64_char(x / 4), b64_char((x % 4) * 16 + y / 16), b64_char((y % 16) * 4)]
    } else {
        seq![b64_char(x / 4), b64_char((x % 4) * 16 + y / 16), b64_char((y % 16) * 4 + z / 64), b64_char(z % 64)]
            + b64_unpadded(b.skip(3))
    }
}

/// `text` is the unpadded standard Base64 text of some `n` bytes.
pub open spec fn is_b64_of_length(text: Seq<char>, n: nat) -> bool {
    exists|b: Seq<u8>| b.len() == n && text == b64_unpadded(b)
}

/// `SaltString::generate` with the operating system's random source: as the
/// crate's source shows, 16 random bytes in their standard Base64 text without
/// padding. Which bytes is not stated: they are random.
#[verifier::external_body]
fn fresh_salt() -> (r: String)
    ensures
        is_b64_of_length(r@, 16),
{
    SaltString::generate(&mut rand_core::OsRng).as_str().to_owned()
}

/// `Argon2::hash_password` with the default parameters, over `password` and the
/// B64 salt `salt`, as a PHC string. The result is named by `argon2_phc`; as the
/// crate documents, a PHC string it makes reads back and verifies the password
/// it was made of. As its source shows, it succeeds for a salt that is the
/// unpadded Base64 text of 8 to 48 bytes and a password of at most
/// `0xFFFF_FFFF` bytes, and a longer password is refused.
#[verifier::external_body]
fn argon2_hash(password: &[u8], salt: &str) -> (r: Result<String, HashError>)
    ensures
        r matches Ok(h) ==> h@ == argon2_phc(password@, salt@) && phc_parses(h@) && argon2_accepts(
            password@,
            h@,
        ),
        (exists|n: nat| 8 <= n <= 48 && is_b64_of_length(salt@, n)) && password@.len() <= 0xFFFF_FFFF ==> r is Ok,
        password@.len() > 0xFFFF_FFFF ==> r is Err,
{
    let salt = SaltString::from_b64(salt)?;
    let hash = argon2::Argon2::default().hash_password(password, &salt)?;
    Ok(hash.to_string())
}

/// `PasswordHash::new` on `phc`, then `Argon2::verify_password` of `password`
/// against it: `Err` when `phc` does not read as a PHC string, else whether the
/// password verifies. Both are named.
#[verifier::external_body]
fn argon2_verify(password: &[u8], phc: &str) -> (r: Result<bool, HashError>)
    ensures
        r is Ok <==> phc_parses(phc@),
        r matches Ok(b) ==> b == argon2_accepts(password@, phc@),
{
    let parsed = PasswordHash::new(phc)?;
    Ok(argon2::Argon2::default().verify_password(password, &parsed).is_ok())
}

/// Why hashing or checking a password failed.
#[derive(Debug, Clone, Copy, PartialEq, Eq, Structural)]
pub enum PasswordError {
    /// The password is empty.
    Empty,
    /// The hasher refused the password or salt.
    Hashing,
    /// The stored hash is no PHC string.
    MalformedHash,
    /// The password does not match the hash.
    Mismatch,
}

/// Whether `phc` is an Argon2 hash of `password` with some salt.
pub open spec fn is_hash_of(password: Seq<u8>, phc: Seq<char>) -> bool {
    exists|salt: Seq<char>| argon2_phc(password, salt) == phc
}

/// Hashes `password` with a fresh random salt, whatever it is; the hash verifies the password.
///
/// # Errors
///
/// `Hashing` when the hasher refuses, which it does exactly for a password of
/// more than `0xFFFF_FFFF` bytes.
pub fn hash_any_password(password: &str) -> (r: Result<String, PasswordError>)
    ensures
        r matches Ok(h) ==> is_hash_of(password.spec_bytes(), h@) && phc_parses(h@) && argon2_accepts(
            password.spec_bytes(),
            h@,
        ),
        r is Err <==> password.spec_bytes().len() > 0xFFFF_FFFF,
        r matches Err(e) ==> e == PasswordError::Hashing,
{
    let salt = fresh_salt();
    match argon2_hash(password.as_bytes(), salt.as_str()) {
        Ok(h) => {
            assert(argon2_phc(password.spec_bytes(), salt@) == h@);
            Ok(h)
        },
        Err(_) => Err(PasswordError::Hashing),
    }
}

/// Hashes a new account's password with a fresh random salt.
///
/// # Errors
///
/// `Empty` for an empty password, `Hashing` when the hasher refuses, which it
/// does exactly for a password of more than `0xFFFF_FFFF` bytes.
pub fn hash_password(password: &str) -> (r: Result<String, PasswordError>)
    ensures
        password@.len() == 0 <==> r == Err::<String, PasswordError>(PasswordError::Empty),
        r matches Ok(h) ==> is_hash_of(password.spec_bytes(), h@) && phc_parses(h@) && argon2_accepts(
            password.spec_bytes(),
            h@,
        ),
        password@.len() > 0 && password.spec_bytes().len() <= 0xFFFF_FFFF ==> r is Ok,
        password@.len() > 0 && password.spec_bytes().len() > 0xFFFF_FFFF ==> r == Err::<String, PasswordError>(
            PasswordError::Hashing,
        ),
        r matches Err(e) ==> e == PasswordError::Empty || e == PasswordError::Hashing,
{
    if password.is_empty() {
        return Err(PasswordError::Empty);
    }
    hash_any_password(password)
}

/// What checking `password` against the stored hash `phc` gives.
pub open spec fn verify_outcome(password: Seq<u8>, phc: Seq<char>) -> Result<(), PasswordError> {
    if !phc_parses(phc) {
        Err(PasswordError::MalformedHash)
    } else if argon2_accepts(password, phc) {
        Ok(())
    } else {
        Err(PasswordError::Mismatch)
    }
}

/// Checks `password` against the stored hash `password_hash`.
///
/// # Errors
///
/// `MalformedHash` when the stored hash is no PHC string, `Mismatch` when the
/// password does not verify against it.
pub fn verify_password(password: &str, password_hash: &str) -> (r: Result<(), PasswordError>)
    ensures
        r == verify_outcome(password.spec_bytes(), password_hash@),
{
    match argon2_verify(password.as_bytes(), password_hash) {
        Ok(true) => Ok(()),
        Ok(false) => Err(PasswordError::Mismatch),
        Err(_) => Err(PasswordError::MalformedHash),
    }
}

/// A password verifies against a hash made of it: a hash that `hash_password`
/// gives (it reads as a PHC string and Argon2 accepts the password against it),
/// `verify_password` accepts for the same password.
pub proof fn lemma_hash_then_verify(password: Seq<u8>, phc: Seq<char>)
    requires
        is_hash_of(password, phc),
        phc_parses(phc),
        argon2_accepts(password, phc),
    ensures
        verify_outcome(password, phc) == Ok::<(), PasswordError>(()),
{
}

/// Why the administrator's login is refused.
#[derive(Debug, Clone, Copy, PartialEq, Eq, Structural)]
pub enum AdminLoginError {
    /// No administrator password hash is configured: administration is off.
    Disabled,
    /// The configured hash is no PHC string.
    MalformedHash,
    /// The password does not match.
    Mismatch,
}

/// Checks the administrator's password against the configured hash, which is
/// trimmed first; a hash that is missing or blank turns administration off.
///
/// # Errors
///
/// `Disabled` without a configured hash, `MalformedHash` when it is no PHC
/// string, `Mismatch` when the password does not verify.
pub fn check_admin_login(configured_hash: Option<String>, password: &str) -> (r: Result<(), AdminLoginError>)
    ensures
        cleaned(text_of(configured_hash)) is None ==> r == Err::<(), AdminLoginError>(AdminLoginError::Disabled),
        cleaned(text_of(configured_hash)) matches Some(h) ==> r == match verify_outcome(password.spec_bytes(), h) {
            Ok(()) => Ok::<(), AdminLoginError>(()),
            Err(PasswordError::MalformedHash) => Err(AdminLoginError::MalformedHash),
            Err(_) => Err(AdminLoginError::Mismatch),
        },
{
    let hash = match clean_optional_text(configured_hash) {
        Some(h) => h,
        None => return Err(AdminLoginError::Disabled),
    };
    match verify_password(password, hash.as_str()) {
        Ok(()) => Ok(()),
        Err(PasswordError::MalformedHash) => Err(AdminLoginError::MalformedHash),
        Err(_) => Err(AdminLoginError::Mismatch),
    }
}

} // verus!

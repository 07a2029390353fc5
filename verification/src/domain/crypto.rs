//! Password hashing and verification with Argon2.

use vstd::prelude::*;

use argon2::password_hash::{PasswordHash, PasswordHasher, PasswordVerifier, SaltString};

use super::DomainError;
use crate::random::fill_random;
use crate::text::concat2;

verus! {

/// What `argon2_hash` returns: the PHC string of `password` hashed by the
/// default Argon2 parameters with the given salt, or the error text.
pub uninterp spec fn argon2_phc(password: Seq<char>, salt: Seq<u8>) -> Result<Seq<char>, Seq<char>>;

/// What `argon2_check` returns: whether `password` matches the PHC string
/// `hash`, or the text of the error when `hash` is not a valid PHC string.
pub uninterp spec fn argon2_verdict(password: Seq<char>, hash: Seq<char>) -> Result<bool, Seq<char>>;

/// Whether `argon2_check` accepts `password` for the PHC string `hash`.
pub open spec fn password_accepted(password: Seq<char>, hash: Seq<char>) -> bool {
    argon2_verdict(password, hash) == Ok::<bool, Seq<char>>(true)
}

/// Whether `password` is within Argon2's bound on the password: at most
/// `u32::MAX` bytes in UTF-8 (`argon2::MAX_PWD_LEN`).
pub open spec fn password_within_limit(password: Seq<char>) -> bool {
    vstd::utf8::encode_utf8(password).len() <= 0xFFFF_FFFF
}

/// The UTF-8 encoding of `s` takes at most four bytes per character.
proof fn lemma_utf8_len_bound(s: Seq<char>)
    ensures
        vstd::utf8::encode_utf8(s).len() <= 4 * s.len(),
    decreases s.len(),
{
    if s.len() > 0 {
        lemma_utf8_len_bound(s.drop_first());
        assert(vstd::utf8::encode_scalar(s[0] as u32).len() <= 4);
    }
}

/// A password of at most `0x3FFF_FFFF` characters is within Argon2's bound.
pub proof fn lemma_password_within_limit(password: Seq<char>)
    requires
        password.len() <= 0x3FFF_FFFF,
    ensures
        password_within_limit(password),
{
    lemma_utf8_len_bound(password);
}

/// Hashes `password` with `Argon2::default().hash_password`, using `salt`
/// encoded by `SaltString::encode_b64`. The result is named `argon2_phc`;
/// the `password-hash` documentation states that a hash produced this way is
/// accepted by `PasswordVerifier::verify_password` for the same password,
/// which the second clause states over `argon2_verdict`. With the default
/// parameters, hashing fails only on a salt outside 4–64 encoded characters
/// (`SaltString::encode_b64`) or 8–`u32::MAX` bytes, or on a password longer
/// than `u32::MAX` bytes (`Argon2::verify_inputs`); a 16-byte salt and a
/// password within that bound always give a hash, which the last clause
/// states.
#[verifier::external_body]
fn argon2_hash(password: &str, salt: &[u8]) -> (r: Result<String, String>)
    ensures
        r is Ok ==> argon2_phc(password@, salt@) == Ok::<Seq<char>, Seq<char>>(r->Ok_0@),
        r is Ok ==> password_accepted(password@, r->Ok_0@),
        r is Err ==> argon2_phc(password@, salt@) == Err::<Seq<char>, Seq<char>>(r->Err_0@),
        salt@.len() == 16 && password_within_limit(password@) ==> r is Ok,
{
    let salt = SaltString::encode_b64(salt).map_err(|e| e.to_string())?;
    argon2::Argon2::default().hash_password(password.as_bytes(), &salt).map(|h| h.to_string()).map_err(|e| e.to_string())
}

/// Parses `hash` with `PasswordHash::new` and, when it parses, checks
/// `password` against it with `Argon2::default().verify_password`. The result
/// is named `argon2_verdict`.
#[verifier::external_body]
fn argon2_check(password: &str, hash: &str) -> (r: Result<bool, String>)
    ensures
        r is Ok ==> argon2_verdict(password@, hash@) == Ok::<bool, Seq<char>>(r->Ok_0),
        r is Err ==> argon2_verdict(password@, hash@) == Err::<bool, Seq<char>>(r->Err_0@),
{
    let parsed = PasswordHash::new(hash).map_err(|e| e.to_string())?;
    Ok(argon2::Argon2::default().verify_password(password.as_bytes(), &parsed).is_ok())
}

/// Hashes `password` with Argon2 and a random 16-byte salt. Whatever the
/// salt, a hash that is returned is accepted by `verify_password` for the
/// same password; it fails only for a password beyond Argon2's bound.
pub fn hash_password(password: &str) -> (r: Result<String, DomainError>)
    ensures
        password_within_limit(password@) ==> r is Ok,
        r matches Ok(h) ==> password_accepted(password@, h@),
        r matches Ok(h) ==> exists|salt: Seq<u8>|
            salt.len() == 16 && argon2_phc(password@, salt) == Ok::<Seq<char>, Seq<char>>(h@),
        r matches Err(e) ==> e matches DomainError::Internal(m) && exists|salt: Seq<u8>, msg: Seq<char>|
            salt.len() == 16 && argon2_phc(password@, salt) == Err::<Seq<char>, Seq<char>>(msg)
                && m@ == "Password hashing failed: "@ + msg,
{
    let mut salt: Vec<u8> = vec![0u8; 16];
    fill_random(&mut salt);
    match argon2_hash(password, salt.as_slice()) {
        Ok(h) => Ok(h),
        Err(m) => Err(DomainError::Internal(concat2("Password hashing failed: ", m.as_str()))),
    }
}

/// Checks `password` against an Argon2 PHC string.
pub fn verify_password(password: &str, hash: &str) -> (r: Result<bool, DomainError>)
    ensures
        r matches Ok(b) ==> argon2_verdict(password@, hash@) == Ok::<bool, Seq<char>>(b),
        r matches Err(e) ==> e matches DomainError::Internal(m) && exists|msg: Seq<char>|
            argon2_verdict(password@, hash@) == Err::<bool, Seq<char>>(msg) && m@
                == "Invalid password hash format: "@ + msg,
        r is Ok <==> argon2_verdict(password@, hash@) is Ok,
{
    match argon2_check(password, hash) {
        Ok(b) => Ok(b),
        Err(m) => Err(DomainError::Internal(concat2("Invalid password hash format: ", m.as_str()))),
    }
}

} // verus!

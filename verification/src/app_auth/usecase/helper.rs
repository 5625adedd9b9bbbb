use argon2::password_hash::SaltString;
use argon2::{Argon2, PasswordHash, PasswordHasher, PasswordVerifier};
use vstd::prelude::*;

verus! {

/// The error type of the `password-hash` crate.
#[verifier::external_type_specification]
#[verifier::external_body]
pub struct ExPasswordHashError(password_hash::Error);

/// Whether `password_hash::PasswordHash::new` accepts the text as a PHC hash string.
pub uninterp spec fn phc_hash_parses(hash: Seq<char>) -> bool;

/// Whether Argon2's `PasswordVerifier::verify_password` accepts `password` for the PHC hash
/// string `hash` (hashing the password with the hash's salt and parameters and comparing).
pub uninterp spec fn argon2_accepts(password: Seq<char>, hash: Seq<char>) -> bool;

/// Checks a password against a stored Argon2 hash. Trusted: parses the hash with
/// `password_hash::PasswordHash::new` and checks the password with
/// `argon2::Argon2::default().verify_password`. The contract claims that the call fails
/// exactly when the hash string does not parse, and otherwise answers whether Argon2
/// accepts the password for that hash; both are fixed functions of the two texts.
#[verifier::external_body]
pub fn verify_password(password: &str, password_hash: &str) -> (r: Result<bool, password_hash::Error>)
    ensures
        r is Ok <==> phc_hash_parses(password_hash@),
        r matches Ok(b) ==> b == argon2_accepts(password@, password_hash@),
{
    let parsed_hash = PasswordHash::new(password_hash)?;
    Ok(Argon2::default().verify_password(password.as_bytes(), &parsed_hash).is_ok())
}

/// The PHC hash string that `argon2::Argon2::default().hash_password` makes of `password`
/// with the salt whose 16 bytes (big-endian) are `salt`, written in the salt alphabet by
/// `SaltString::encode_b64`; `None` when either call fails. Argon2 with fixed parameters,
/// version and salt is a function of these values.
pub uninterp spec fn argon2_hash_with_salt(password: Seq<char>, salt: u128) -> Option<Seq<char>>;

/// Hashes a password for storing. Trusted: encodes the salt with
/// `password_hash::SaltString::encode_b64` and hashes with
/// `argon2::Argon2::default().hash_password`, giving the PHC string. The contract claims
/// that the result is the crate's hash for these values (`argon2_hash_with_salt`), and what
/// the crate shows of it: the string parses as a PHC hash and Argon2 accepts the same
/// password for it. It does not say that the call succeeds.
#[verifier::external_body]
pub(crate) fn hash_password(password: &str, salt: u128) -> (r: Result<String, password_hash::Error>)
    ensures
        match argon2_hash_with_salt(password@, salt) {
            Some(h) => r matches Ok(x) && x@ == h,
            None => r is Err,
        },
        r matches Ok(h) ==> phc_hash_parses(h@) && argon2_accepts(password@, h@),
{
    let salt = SaltString::encode_b64(&salt.to_be_bytes())?;
    Ok(Argon2::default().hash_password(password.as_bytes(), &salt)?.to_string())
}

} // verus!

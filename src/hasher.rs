use vstd::prelude::*;

verus! {

/// Work factor handed to bcrypt for every new password hash.
pub const BCRYPT_COST: u32 = 12;

#[verifier::external_type_specification]
#[verifier::external_body]
pub struct ExBcryptError(bcrypt::BcryptError);

/// What `bcrypt::verify(password, hash)` reports: `Some(b)` for `Ok(b)`, `None` for
/// a stored hash that bcrypt cannot read.
pub uninterp spec fn bcrypt_verdict(password: Seq<char>, hash: Seq<char>) -> Option<bool>;

/// Relies on `bcrypt::hash`: the string it returns is one that `bcrypt::verify`
/// accepts for the same password (it re-hashes with the salt and cost written
/// into the string and compares).
#[verifier::external_body]
fn bcrypt_hash(password: &str) -> (r: Result<String, bcrypt::BcryptError>)
    ensures
        r matches Ok(h) ==> bcrypt_verdict(password@, h@) == Some(true),
{
    bcrypt::hash(password, BCRYPT_COST)
}

/// Relies on `bcrypt::verify`: a function of the password and the stored hash
/// alone (the salt and cost are read from the hash).
#[verifier::external_body]
fn bcrypt_verify(password: &str, hash: &str) -> (r: Result<bool, bcrypt::BcryptError>)
    ensures
        match r {
            Ok(b) => bcrypt_verdict(password@, hash@) == Some(b),
            Err(_) => bcrypt_verdict(password@, hash@) is None,
        },
{
    bcrypt::verify(password, hash)
}

/// The hashing library failed: no randomness for a salt, or a stored hash
/// that is structurally corrupt.
#[derive(Debug, Clone, Copy, PartialEq, Eq)]
pub struct HashingError;

/// Salts and hashes `secret` for storage.
///
/// Whatever salt was drawn, the stored string verifies against the same secret.
pub fn hash_secret(secret: &str) -> (r: Result<String, HashingError>)
    ensures
        r matches Ok(h) ==> bcrypt_verdict(secret@, h@) == Some(true),
{
    match bcrypt_hash(secret) {
        Ok(h) => Ok(h),
        Err(_) => Err(HashingError),
    }
}

/// Whether `secret` matches the stored `hash`; an unreadable hash is an error.
pub fn verify_secret(secret: &str, hash: &str) -> (r: Result<bool, HashingError>)
    ensures
        match bcrypt_verdict(secret@, hash@) {
            Some(b) => r == Ok::<bool, HashingError>(b),
            None => r == Err::<bool, HashingError>(HashingError),
        },
{
    match bcrypt_verify(secret, hash) {
        Ok(b) => Ok(b),
        Err(_) => Err(HashingError),
    }
}

} // verus!

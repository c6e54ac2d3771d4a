//! One-way password hashing for teacher credentials. The hashing itself is
//! done by the bcrypt crate; the library only ever stores the hash, never
//! the plaintext.

use vstd::prelude::*;

use crate::response::AppError;

verus! {

/// Whether bcrypt's verification accepts this password against this stored
/// hash. The outcome depends on the two strings alone.
pub uninterp spec fn password_verifies(password: Seq<char>, hash: Seq<char>) -> bool;

/// Relies on bcrypt::hash: it derives a salted one-way hash of the
/// password, and bcrypt::verify accepts the password against that hash.
#[verifier::external_body]
pub(crate) fn hash_password(password: &str) -> (r: Result<String, AppError>)
    ensures
        match r {
            Ok(h) => password_verifies(password@, h@),
            Err(e) => e == AppError::Storage,
        },
{
    match bcrypt::hash(password, bcrypt::DEFAULT_COST) {
        Ok(h) => Ok(h),
        Err(_) => Err(AppError::Storage),
    }
}

/// Relies on bcrypt::verify: it decides, from the password and the stored
/// hash alone, whether the password produced the hash. It errs only on a
/// hash string it cannot parse, and since its outcome depends on the two
/// strings alone, such a pair can never be an accepting one.
#[verifier::external_body]
pub(crate) fn verify_password(password: &str, hash: &str) -> (r: Result<bool, AppError>)
    ensures
        match r {
            Ok(b) => b == password_verifies(password@, hash@),
            Err(e) => e == AppError::Storage && !password_verifies(password@, hash@),
        },
{
    match bcrypt::verify(password, hash) {
        Ok(b) => Ok(b),
        Err(_) => Err(AppError::Storage),
    }
}

} // verus!

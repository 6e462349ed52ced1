//! Password hashing and verification through `bcrypt`.

use vstd::prelude::*;
use bcrypt::BcryptError;

verus! {

/// The error type of `bcrypt`, carried through opaquely.
#[verifier::external_type_specification]
#[verifier::external_body]
pub struct ExBcryptError(BcryptError);

/// Names the verdict of `bcrypt::verify`: whether it returns `Ok(true)` for
/// this password and stored hash. It depends on its two arguments alone.
pub uninterp spec fn verify_accepts(password: Seq<char>, hash: Seq<char>) -> bool;

/// Relies on `bcrypt::hash` at `bcrypt::DEFAULT_COST`: the salt is drawn at
/// random, and a hash it returns verifies against the same password
/// (`verify` rehashes with the stored cost and salt and compares).
#[verifier::external_body]
pub(crate) fn hash_password(password: &str) -> (r: Result<String, BcryptError>)
    ensures
        r matches Ok(h) ==> verify_accepts(password@, h@),
{
    bcrypt::hash(password, bcrypt::DEFAULT_COST)
}

/// Relies on `bcrypt::verify`: `Ok(true)` exactly when the stored hash
/// accepts the password; `Ok(false)` on a mismatch, `Err` on a malformed hash.
#[verifier::external_body]
pub(crate) fn verify_password(password: &str, hash: &str) -> (r: Result<bool, BcryptError>)
    ensures
        (r matches Ok(b) && b) == verify_accepts(password@, hash@),
{
    bcrypt::verify(password, hash)
}

} // verus!

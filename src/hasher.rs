use vstd::prelude::*;

use crate::error::AuthError;

verus! {

#[verifier::external_type_specification]
#[verifier::external_body]
pub struct ExBcryptError(bcrypt::BcryptError);

/// Whether bcrypt accepts `password` against the stored `digest`.
pub uninterp spec fn password_matches(password: Seq<char>, digest: Seq<char>) -> bool;

/// Whether bcrypt can read `digest`: its version, cost, salt and hash parts are well formed.
pub uninterp spec fn bcrypt_reads(digest: Seq<char>) -> bool;

/// Relies on `bcrypt::hash` at `DEFAULT_COST` (12) with a fresh random salt: the digest differs
/// from call to call, and `bcrypt::verify` reads every digest it gives and accepts the password
/// against it.
#[verifier::external_body]
fn bcrypt_hash(password: &str) -> (r: Result<String, bcrypt::BcryptError>)
    ensures
        r is Ok ==> password_matches(password@, r->Ok_0@) && bcrypt_reads(r->Ok_0@),
{
    bcrypt::hash(password, bcrypt::DEFAULT_COST)
}

/// Relies on `bcrypt::verify`: it recomputes the digest with the salt and cost that `digest`
/// holds and compares in constant time, so its answer depends on the two arguments alone. Its
/// errors all come from reading the digest (`split_hash`, the base64 of salt and hash, the
/// salt length, the cost), so whether it succeeds depends on the digest alone; a password that
/// matches implies a readable digest.
#[verifier::external_body]
fn bcrypt_verify(password: &str, digest: &str) -> (r: Result<bool, bcrypt::BcryptError>)
    ensures
        r is Ok <==> bcrypt_reads(digest@),
        r is Ok ==> r->Ok_0 == password_matches(password@, digest@),
        password_matches(password@, digest@) ==> r is Ok && r->Ok_0,
{
    bcrypt::verify(password, digest)
}

/// A salted digest of `password`, fit to store.
pub fn hash_password(password: &str) -> (r: Result<String, AuthError>)
    ensures
        r is Ok ==> password_matches(password@, r->Ok_0@) && bcrypt_reads(r->Ok_0@),
        r is Err ==> r->Err_0 == AuthError::HashingFailure,
{
    match bcrypt_hash(password) {
        Ok(digest) => Ok(digest),
        Err(_) => Err(AuthError::HashingFailure),
    }
}

/// Whether `password` matches the stored `digest`; a digest that cannot be read is a
/// `HashingFailure`, never a mismatch.
pub fn verify_password(password: &str, digest: &str) -> (r: Result<bool, AuthError>)
    ensures
        r is Ok <==> bcrypt_reads(digest@),
        password_matches(password@, digest@) ==> r == Ok::<bool, AuthError>(true),
        r is Ok ==> r->Ok_0 == password_matches(password@, digest@),
        r is Err ==> r->Err_0 == AuthError::HashingFailure,
{
    match bcrypt_verify(password, digest) {
        Ok(b) => Ok(b),
        Err(_) => Err(AuthError::HashingFailure),
    }
}

} // verus!

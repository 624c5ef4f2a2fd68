//! Credential hasher: salted one-way password digests and their verification.

use crate::text::digit_char;
use vstd::prelude::*;

verus! {

/// The work factor used when the caller has no reason to pick another one.
pub const DEFAULT_COST: u32 = 12;

/// The smallest work factor the algorithm accepts.
pub const MIN_COST: u32 = 4;

/// The largest work factor the algorithm accepts.
pub const MAX_COST: u32 = 31;

/// The error of the `bcrypt` crate, carried as an opaque value.
#[verifier::external_type_specification]
#[verifier::external_body]
pub struct ExBcryptError(bcrypt::BcryptError);

/// The verdict of `bcrypt::verify` on a password and a stored digest:
/// `Some(matches)` where the digest is well formed, `None` where it is not.
pub uninterp spec fn bcrypt_verdict(plaintext: Seq<char>, digest: Seq<char>) -> Option<bool>;

/// Whether `digest` has the shape of a digest made with the work factor
/// `cost`: `$2b$`, the work factor in two digits, `$`, then 53 characters of
/// salt and hash.
pub open spec fn is_digest_of_cost(digest: Seq<char>, cost: u32) -> bool {
    &&& digest.len() == 60
    &&& digest.subrange(0, 4) == "$2b$"@
    &&& digest[4] == digit_char((cost / 10) as nat)
    &&& digest[5] == digit_char((cost % 10) as nat)
    &&& digest[6] == '$'
}

/// The hashing algorithm could not process its input.
#[derive(Debug)]
pub struct HashingError {
    /// What the algorithm reported.
    pub detail: String,
}

/// Calls `bcrypt::hash`, which draws a fresh random salt on every call.
///
/// Assumed of it: a work factor outside `MIN_COST..=MAX_COST` is refused, and
/// a digest that comes back is written in the version `2b` with the work
/// factor that was asked for, and is one that `bcrypt::verify` accepts for
/// the same password.
#[verifier::external_body]
fn bcrypt_hash(plaintext: &str, cost: u32) -> (res: Result<String, bcrypt::BcryptError>)
    ensures
        !(MIN_COST <= cost <= MAX_COST) ==> res is Err,
        res matches Ok(digest) ==> is_digest_of_cost(digest@, cost),
        res matches Ok(digest) ==> bcrypt_verdict(plaintext@, digest@) == Some(true),
{
    bcrypt::hash(plaintext, cost)
}

/// Calls `bcrypt::verify`.
///
/// Assumed of it: the outcome depends on the password and the digest alone.
#[verifier::external_body]
fn bcrypt_verify(plaintext: &str, digest: &str) -> (res: Result<bool, bcrypt::BcryptError>)
    ensures
        match res {
            Ok(matches) => bcrypt_verdict(plaintext@, digest@) == Some(matches),
            Err(_) => bcrypt_verdict(plaintext@, digest@) is None,
        },
{
    bcrypt::verify(plaintext, digest)
}

/// Renders a `bcrypt::BcryptError` with its `Display` impl.
#[verifier::external_body]
fn bcrypt_error_text(error: &bcrypt::BcryptError) -> String {
    error.to_string()
}

/// Turns the outcome of the hashing call into the library's own result.
pub fn digest_from(outcome: Result<String, bcrypt::BcryptError>) -> (res: Result<
    String,
    HashingError,
>)
    ensures
        outcome is Ok <==> res is Ok,
        outcome matches Ok(digest) ==> res matches Ok(d) && d@ == digest@,
{
    match outcome {
        Ok(digest) => Ok(digest),
        Err(error) => Err(HashingError { detail: bcrypt_error_text(&error) }),
    }
}

/// Computes a salted digest of `plaintext` with work factor `cost`. A digest
/// that comes back is made with this work factor and verifies `plaintext`.
pub fn hash(plaintext: &str, cost: u32) -> (res: Result<String, HashingError>)
    ensures
        !(MIN_COST <= cost <= MAX_COST) ==> res is Err,
        res matches Ok(digest) ==> is_digest_of_cost(digest@, cost),
        res matches Ok(digest) ==> bcrypt_verdict(plaintext@, digest@) == Some(true),
{
    digest_from(bcrypt_hash(plaintext, cost))
}

/// Turns the outcome of the verifying call into the library's own result: a
/// mismatch is a verdict, not a failure.
pub fn verdict_from(outcome: Result<bool, bcrypt::BcryptError>) -> (res: Result<
    bool,
    HashingError,
>)
    ensures
        match outcome {
            Ok(matches) => res == Ok::<bool, HashingError>(matches),
            Err(_) => res is Err,
        },
{
    match outcome {
        Ok(matches) => Ok(matches),
        Err(error) => Err(HashingError { detail: bcrypt_error_text(&error) }),
    }
}

/// Checks `plaintext` against a stored digest: whether it is the password
/// the digest was made from. A digest that is not well formed is a failure.
pub fn verify(plaintext: &str, digest: &str) -> (res: Result<bool, HashingError>)
    ensures
        match bcrypt_verdict(plaintext@, digest@) {
            Some(matches) => res == Ok::<bool, HashingError>(matches),
            None => res is Err,
        },
{
    verdict_from(bcrypt_verify(plaintext, digest))
}

} // verus!

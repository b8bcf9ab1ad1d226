//! The credential hasher: salted, work-factor based digests of passwords, and
//! the check of a password against such a digest.

use vstd::prelude::*;

verus! {

/// The work factor of every digest that [`hash`] makes.
pub const HASH_COST: u32 = 12;

/// The hasher could not produce a digest.
#[derive(Clone, Copy, Debug, PartialEq, Eq, Structural)]
pub struct HashingFailure;

/// What `bcrypt::verify` answers for `password` and `digest`: `Some(same)`, or
/// `None` where it reports an error, as it does for a malformed digest.
pub uninterp spec fn bcrypt_verify(password: Seq<char>, digest: Seq<char>) -> Option<bool>;

/// `password` is verified against `digest`: re-hashed with the salt and the
/// work factor that the digest holds, it gives the digest again.
pub open spec fn digest_matches(password: Seq<char>, digest: Seq<char>) -> bool {
    bcrypt_verify(password, digest) == Some(true)
}

/// Calls `bcrypt::hash`, which salts the password from the system's source of
/// randomness; `None` stands for its error.
///
/// Trusted, not proved: a digest that comes back is one against which
/// `bcrypt::verify` accepts the same password. Which digest comes back, and
/// whether one does, is left open.
#[verifier::external_body]
fn bcrypt_hash(password: &str, cost: u32) -> (digest: Option<String>)
    ensures
        digest matches Some(d) ==> bcrypt_verify(password@, d@) == Some(true),
{
    bcrypt::hash(password, cost).ok()
}

/// Calls `bcrypt::verify`; `None` stands for its error.
///
/// Trusted, not proved: the answer depends on the two strings alone, so it is
/// the value that [`bcrypt_verify`] names for them.
#[verifier::external_body]
fn bcrypt_check(password: &str, digest: &str) -> (outcome: Option<bool>)
    ensures
        outcome == bcrypt_verify(password@, digest@),
{
    bcrypt::verify(password, digest).ok()
}

/// Whether a check's outcome counts as a match: only a clear yes does, an
/// error counts as no match.
pub fn matched(outcome: Option<bool>) -> (yes: bool)
    ensures
        yes == (outcome == Some(true)),
{
    match outcome {
        Some(same) => same,
        None => false,
    }
}

/// A salted digest of `plaintext` at work factor [`HASH_COST`], fit to be stored
/// in place of the password.
///
/// Whether a digest is produced rests with the hasher's source of randomness;
/// every digest that is produced verifies the password it was made from.
pub fn hash(plaintext: &str) -> (digest: Result<String, HashingFailure>)
    ensures
        digest matches Ok(d) ==> digest_matches(plaintext@, d@),
{
    digest_or_failure(bcrypt_hash(plaintext, HASH_COST))
}

/// Whether `plaintext` is the password that `digest` was made from. A
/// malformed digest matches nothing.
pub fn verify(plaintext: &str, digest: &str) -> (same: bool)
    ensures
        same == digest_matches(plaintext@, digest@),
{
    matched(bcrypt_check(plaintext, digest))
}

/// What the hasher's answer means: the digest where there is one, a
/// `HashingFailure` where there is none.
pub fn digest_or_failure(outcome: Option<String>) -> (digest: Result<String, HashingFailure>)
    ensures
        outcome matches Some(d) ==> digest == Ok::<String, HashingFailure>(d),
        outcome is None ==> digest == Err::<String, HashingFailure>(HashingFailure),
{
    match outcome {
        Some(d) => Ok(d),
        None => Err(HashingFailure),
    }
}

} // verus!

//! Password hashing with bcrypt: a salted one-way digest for storage, and
//! the test of a plaintext against a stored digest.

use vstd::prelude::*;

verus! {

/// The error type of the `bcrypt` crate.
#[verifier::external_type_specification]
#[verifier::external_body]
pub struct ExBcryptError(bcrypt::BcryptError);

/// What `bcrypt::verify` answers for a plaintext and a digest: whether
/// the digest was made from the plaintext, or nothing where the digest
/// is malformed.
pub uninterp spec fn digest_accepts(plaintext: Seq<char>, digest: Seq<char>) -> Option<bool>;

/// The work factor handed to bcrypt: two to this power key expansions.
pub const HASH_COST: u32 = 12;

/// The decimal digit for a value below ten.
pub open spec fn decimal_digit(value: int) -> char {
    seq!['0', '1', '2', '3', '4', '5', '6', '7', '8', '9'][value]
}

/// Whether `digest` has the form of a bcrypt digest made with the work
/// factor `cost`: the version mark `$2b$`, the work factor in two
/// decimal digits, `$`, and the 53 characters of salt and hash.
pub open spec fn carries_cost(digest: Seq<char>, cost: u32) -> bool {
    &&& digest.len() == 60
    &&& digest[0] == '$'
    &&& digest[1] == '2'
    &&& digest[2] == 'b'
    &&& digest[3] == '$'
    &&& digest[4] == decimal_digit(cost as int / 10)
    &&& digest[5] == decimal_digit(cost as int % 10)
    &&& digest[6] == '$'
}

/// Hashing or verifying could not be carried out.
#[derive(Clone, Copy, Debug, PartialEq, Eq, Structural)]
pub struct HashingFailed;

/// Calls `bcrypt::hash`. The salt is random, so the digest is not a
/// function of the arguments. Two things hold of every digest that comes
/// back. `bcrypt::verify` accepts it for the same plaintext: it reads
/// cost and salt out of the digest and repeats the computation. And it
/// is written as `$2b$`, the cost in two digits, `$`, 22 characters of
/// salt and 31 of hash; a cost outside 4 to 31 gives an error instead.
#[verifier::external_body]
fn bcrypt_hash(plaintext: &str, cost: u32) -> (r: Result<String, bcrypt::BcryptError>)
    ensures
        r matches Ok(digest) ==> {
            &&& digest_accepts(plaintext@, digest@) == Some(true)
            &&& carries_cost(digest@, cost)
        },
{
    bcrypt::hash(plaintext, cost)
}

/// Calls `bcrypt::verify`, which depends on its two arguments alone. The
/// contract gives its answer a name: `Ok(b)` where the name is `Some(b)`,
/// an error where it is `None`.
#[verifier::external_body]
fn bcrypt_verify(plaintext: &str, digest: &str) -> (r: Result<bool, bcrypt::BcryptError>)
    ensures
        match r {
            Ok(b) => digest_accepts(plaintext@, digest@) == Some(b),
            Err(_) => digest_accepts(plaintext@, digest@) is None,
        },
{
    bcrypt::verify(plaintext, digest)
}

/// The result of [`verify`] for an answer of the digest test.
pub open spec fn verdict(answer: Option<bool>) -> Result<bool, HashingFailed> {
    match answer {
        Some(b) => Ok(b),
        None => Err(HashingFailed),
    }
}

/// Produces a salted bcrypt digest of `plaintext` for storage.
///
/// Whether a digest comes back is decided by the random source; every
/// digest that does is made with the work factor [`HASH_COST`] and is
/// one that [`verify`] accepts for `plaintext`. bcrypt reads the first
/// 72 bytes of a plaintext: a longer one is hashed as its first 72.
pub fn hash(plaintext: &str) -> (r: Result<String, HashingFailed>)
    ensures
        r matches Ok(digest) ==> {
            &&& digest_accepts(plaintext@, digest@) == Some(true)
            &&& carries_cost(digest@, HASH_COST)
        },
{
    digest_or_failure(bcrypt_hash(plaintext, HASH_COST))
}

/// Tests `plaintext` against a stored digest: `Ok(true)` on a match,
/// `Ok(false)` on a mismatch, an error where the digest is malformed.
/// As bcrypt reads the first 72 bytes of a plaintext, two plaintexts
/// that agree on those match the same digests.
pub fn verify(plaintext: &str, digest: &str) -> (r: Result<bool, HashingFailed>)
    ensures
        r == verdict(digest_accepts(plaintext@, digest@)),
{
    match bcrypt_verify(plaintext, digest) {
        Ok(b) => Ok(b),
        Err(_) => Err(HashingFailed),
    }
}

/// What [`hash`] returns for each outcome of the bcrypt call: the digest
/// as it came, or the one failure that stands for every bcrypt error.
pub fn digest_or_failure(outcome: Result<String, bcrypt::BcryptError>) -> (r: Result<
    String,
    HashingFailed,
>)
    ensures
        match outcome {
            Ok(digest) => r == Ok::<String, HashingFailed>(digest),
            Err(_) => r == Err::<String, HashingFailed>(HashingFailed),
        },
{
    match outcome {
        Ok(digest) => Ok(digest),
        Err(_) => Err(HashingFailed),
    }
}

} // verus!

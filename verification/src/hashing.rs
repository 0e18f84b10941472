use vstd::prelude::*;

verus! {

/// The error type of the `bcrypt` crate, carried through and never inspected.
#[verifier::external_type_specification]
#[verifier::external_body]
pub struct ExBcryptError(bcrypt::BcryptError);

/// The lowest work factor that the hash function accepts.
pub const MIN_COST: u32 = 4;

/// The highest work factor that the hash function accepts.
pub const MAX_COST: u32 = 31;

/// The work factor used when the caller has no reason to pick another.
pub const DEFAULT_COST: u32 = 12;

/// What `bcrypt::verify` answers for a password and a stored hash:
/// `Some(b)` where it returns `Ok(b)`, `None` where it returns an error.
pub uninterp spec fn verify_outcome(password: Seq<char>, hash: Seq<char>) -> Option<bool>;

/// A stored hash accepts a password when the comparator answers `Ok(true)`.
pub open spec fn password_accepted(password: Seq<char>, hash: Seq<char>) -> bool {
    verify_outcome(password, hash) == Some(true)
}

/// Whether a work factor lies in the range the hash function accepts.
pub open spec fn cost_allowed(cost: u32) -> bool {
    MIN_COST <= cost <= MAX_COST
}

/// Calls `bcrypt::hash`, which draws a fresh random salt and hashes the
/// password at the given work factor. Trusted: a work factor outside
/// 4..=31 is refused, and a hash that comes back is one that `bcrypt::verify`
/// accepts for the same password (it recomputes the digest from the salt and
/// work factor written into the hash). Nothing else is claimed of the hash,
/// which differs from call to call.
#[verifier::external_body]
pub(crate) fn bcrypt_hash(password: &str, cost: u32) -> (r: Result<String, bcrypt::BcryptError>)
    ensures
        !cost_allowed(cost) ==> r is Err,
        r matches Ok(h) ==> verify_outcome(password@, h@) == Some(true),
{
    bcrypt::hash(password, cost)
}

/// Calls `bcrypt::verify`, which parses the stored hash, recomputes the digest
/// of the password with the salt and work factor found there, and compares.
/// Trusted: the answer depends on the two strings alone.
#[verifier::external_body]
pub(crate) fn bcrypt_verify(password: &str, hash: &str) -> (r: Result<bool, bcrypt::BcryptError>)
    ensures
        match r {
            Ok(b) => verify_outcome(password@, hash@) == Some(b),
            Err(_) => verify_outcome(password@, hash@) is None,
        },
{
    bcrypt::verify(password, hash)
}

/// Reads the comparator's answer as yes or no: only `Ok(true)` is a yes,
/// and an internal error of the comparator counts as a mismatch.
pub fn accepted(outcome: Result<bool, bcrypt::BcryptError>) -> (r: bool)
    ensures
        r == (outcome matches Ok(b) && b),
{
    match outcome {
        Ok(b) => b,
        Err(_) => false,
    }
}

/// Checks a password against a stored hash.
pub fn check_password(password: &str, hash: &str) -> (r: bool)
    ensures
        r == password_accepted(password@, hash@),
{
    accepted(bcrypt_verify(password, hash))
}

} // verus!

use vstd::prelude::*;
use crate::error::AuthError;
use crate::hashing::{bcrypt_hash, check_password, cost_allowed, password_accepted};

verus! {

/// A row ready to be inserted into the users relation: the username exactly
/// as given and the salted hash of the password, never the password itself.
/// The storage assigns the id.
#[derive(Debug)]
pub struct NewUser {
    pub username: String,
    pub password_hash: String,
}

/// What the storage answered to the insertion of one row.
#[derive(Clone, Copy, Debug, PartialEq, Eq, Structural)]
pub enum InsertReply {
    /// One row was added.
    Inserted,
    /// The uniqueness constraint on the username refused the row.
    UniqueViolation,
    /// Anything else went wrong; no row was added.
    Unavailable,
}

/// What the storage answered to the lookup of one username.
#[derive(Debug)]
pub enum LookupReply {
    /// The single row with this username holds this hash.
    Found(String),
    /// No row has this username.
    NotFound,
    /// The storage could not be read.
    Unavailable,
}

impl LookupReply {
    /// The hash that the lookup found, if it found a row.
    pub open spec fn stored(&self) -> Option<Seq<char>> {
        match self {
            LookupReply::Found(h) => Some(h@),
            _ => None,
        }
    }
}

/// What validating a password against a lookup's reply gives: a storage
/// fault is an error, and otherwise the answer is whether the credentials
/// are valid.
pub open spec fn validation(reply: LookupReply, password: Seq<char>) -> Result<bool, AuthError> {
    if reply is Unavailable {
        Err(AuthError::StorageUnavailable)
    } else {
        Ok(valid_credentials(reply.stored(), password))
    }
}

/// A login is valid when a row was found and its hash accepts the password.
pub open spec fn valid_credentials(stored: Option<Seq<char>>, password: Seq<char>) -> bool {
    match stored {
        Some(h) => password_accepted(password, h),
        None => false,
    }
}

/// What an insertion's reply means for the caller.
pub open spec fn insert_result(reply: InsertReply) -> Result<(), AuthError> {
    match reply {
        InsertReply::Inserted => Ok(()),
        InsertReply::UniqueViolation => Err(AuthError::DuplicateUsername),
        InsertReply::Unavailable => Err(AuthError::StorageUnavailable),
    }
}

/// Builds the row from the hasher's answer: the username is kept byte for
/// byte, and a failed hashing never yields a row.
pub fn new_user(
    username: &str,
    hashed: Result<String, bcrypt::BcryptError>,
) -> (r: Result<NewUser, AuthError>)
    ensures
        match hashed {
            Ok(h) => r matches Ok(u) && u.username@ == username@ && u.password_hash@ == h@,
            Err(_) => r == Err::<NewUser, AuthError>(AuthError::HashingFailure),
        },
{
    match hashed {
        Ok(h) => Ok(NewUser { username: username.to_owned(), password_hash: h }),
        Err(_) => Err(AuthError::HashingFailure),
    }
}

/// Hashes the password at the given work factor and returns the row to
/// insert. The username is not trimmed or case-folded. The only failure is
/// `HashingFailure`, which a work factor outside 4..=31 always gives.
pub fn create_user(username: &str, password: &str, cost: u32) -> (r: Result<NewUser, AuthError>)
    ensures
        match r {
            Ok(u) => {
                &&& cost_allowed(cost)
                &&& u.username@ == username@
                &&& password_accepted(password@, u.password_hash@)
            },
            Err(e) => e == AuthError::HashingFailure,
        },
{
    let hashed = bcrypt_hash(password, cost);
    new_user(username, hashed)
}

/// Reads the storage's reply to the insertion of a row.
pub fn insert_outcome(reply: InsertReply) -> (r: Result<(), AuthError>)
    ensures
        r == insert_result(reply),
{
    match reply {
        InsertReply::Inserted => Ok(()),
        InsertReply::UniqueViolation => Err(AuthError::DuplicateUsername),
        InsertReply::Unavailable => Err(AuthError::StorageUnavailable),
    }
}

/// Validates a password against what the storage holds for the username. An
/// unknown user and a wrong password both give `Ok(false)`, and so does a
/// stored hash that the comparator cannot read; only a storage fault is an
/// error.
pub fn validate_user(reply: &LookupReply, password: &str) -> (r: Result<bool, AuthError>)
    ensures
        r == validation(*reply, password@),
{
    match reply {
        LookupReply::Found(h) => Ok(check_password(password, h.as_str())),
        LookupReply::NotFound => Ok(false),
        LookupReply::Unavailable => Err(AuthError::StorageUnavailable),
    }
}

} // verus!

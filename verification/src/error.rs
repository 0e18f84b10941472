use vstd::prelude::*;

verus! {

/// Why an authentication operation did not succeed.
#[derive(Clone, Copy, Debug, PartialEq, Eq, Structural)]
pub enum AuthError {
    /// The storage already holds a user with exactly this username.
    DuplicateUsername,
    /// Unknown user or wrong password; the two are deliberately not told apart.
    InvalidCredentials,
    /// The storage could not be opened, read or written.
    StorageUnavailable,
    /// The password could not be hashed at registration.
    HashingFailure,
}

impl AuthError {
    /// Whether the user can mend the failure by changing what they typed.
    pub open spec fn user_facing(self) -> bool {
        self == AuthError::DuplicateUsername || self == AuthError::InvalidCredentials
    }

    /// Tells user-facing failures from infrastructure faults.
    pub fn is_user_facing(&self) -> (r: bool)
        ensures
            r == self.user_facing(),
    {
        match self {
            AuthError::DuplicateUsername => true,
            AuthError::InvalidCredentials => true,
            AuthError::StorageUnavailable => false,
            AuthError::HashingFailure => false,
        }
    }
}

} // verus!

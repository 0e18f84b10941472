use vstd::prelude::*;
use crate::session::{resolve, resolved, SessionKey};
use crate::text::str_view;

verus! {

/// An authenticated caller, by username.
#[derive(Debug)]
pub struct AuthUser(pub String);

/// The two outcomes of resolving a caller's identity.
#[derive(Debug)]
pub enum Identity {
    Authenticated(AuthUser),
    Anonymous,
}

impl Identity {
    /// The username of an authenticated caller, `None` for an anonymous one.
    pub open spec fn view(&self) -> Option<Seq<char>> {
        match self {
            Identity::Authenticated(user) => Some(user.0@),
            Identity::Anonymous => None,
        }
    }

    /// Whether the caller proceeds as an authenticated user.
    pub fn is_authenticated(&self) -> (r: bool)
        ensures
            r == self@.is_some(),
    {
        match self {
            Identity::Authenticated(_) => true,
            Identity::Anonymous => false,
        }
    }
}

impl AuthUser {
    /// The guard of protected operations: the user that the request's session
    /// token stands for, or `None` where the request carries no token or one
    /// that does not verify.
    pub fn from_request(key: &SessionKey, token: Option<&str>) -> (r: Option<AuthUser>)
        ensures
            match r {
                Some(user) => resolved(key@, str_view(token)) == Some(user.0@),
                None => resolved(key@, str_view(token)) is None,
            },
    {
        match resolve(key, token) {
            Some(name) => Some(AuthUser(name)),
            None => None,
        }
    }
}

/// Resolves a presented session token into an identity. It never fails: a
/// missing, malformed or forged token is an anonymous caller.
pub fn resolve_identity(key: &SessionKey, token: Option<&str>) -> (r: Identity)
    ensures
        r@ == resolved(key@, str_view(token)),
{
    match AuthUser::from_request(key, token) {
        Some(user) => Identity::Authenticated(user),
        None => Identity::Anonymous,
    }
}

} // verus!

use vstd::prelude::*;
use crate::credentials::{insert_result, validation, InsertReply, LookupReply};
use crate::error::AuthError;
use crate::flow::{
    answers_login, refused_login, registration_target, LoginResponse, LogoutResponse, Redirect,
};
use crate::guard::Identity;
use crate::hashing::password_accepted;
use crate::session::{resolved, session_cookie};

verus! {

/// Hash round trip: once a hash that accepts a password (as every hash that
/// registration produces accepts the password it was made from) is stored
/// and found again, validating that password against it gives `Ok(true)`.
pub proof fn hash_round_trip(password: Seq<char>, reply: LookupReply)
    requires
        reply matches LookupReply::Found(hash) && password_accepted(password, hash@),
    ensures
        validation(reply, password) == Ok::<bool, AuthError>(true),
{
}

/// Non-enumeration: the response to a login for a username that has no row
/// and the response to a login with a password that the stored hash does not
/// accept are one and the same value, whatever the usernames and the key.
pub proof fn non_enumeration(
    key: Seq<u8>,
    unknown_user: Seq<char>,
    any_password: Seq<char>,
    known_user: Seq<char>,
    stored_hash: Seq<char>,
    wrong_password: Seq<char>,
    to_unknown: LoginResponse,
    to_wrong: LoginResponse,
)
    requires
        !password_accepted(wrong_password, stored_hash),
        answers_login(key, None, unknown_user, any_password, to_unknown),
        answers_login(key, Some(stored_hash), known_user, wrong_password, to_wrong),
    ensures
        to_unknown == to_wrong,
        to_unknown == refused_login(),
{
}

/// Session integrity: the guard resolves a token that stands for an identity
/// under the key to that authenticated identity, and to nothing else.
pub proof fn session_integrity(
    key: Seq<u8>,
    identity: Seq<char>,
    token: Seq<char>,
    seen: Identity,
)
    requires
        resolved(key, Some(token)) == Some(identity),
        seen@ == resolved(key, Some(token)),
    ensures
        seen matches Identity::Authenticated(user) && user.0@ == identity,
{
}

/// Logout effect: a logout names the session cookie and records nothing, so
/// a client that discards the cookie is anonymous from then on, while the
/// discarded token, if sent again, still stands for the same identity as
/// long as the key is the same.
pub proof fn logout_effect(
    key: Seq<u8>,
    identity: Seq<char>,
    token: Seq<char>,
    response: LogoutResponse,
    after: Identity,
    replayed: Identity,
)
    requires
        resolved(key, Some(token)) == Some(identity),
        response.discard@ == session_cookie(),
        after@ == resolved(key, None),
        replayed@ == resolved(key, Some(token)),
    ensures
        after == Identity::Anonymous,
        replayed matches Identity::Authenticated(user) && user.0@ == identity,
{
}

/// Where the storage's unique constraint lets one of several insertions of a
/// username through and refuses all the others, exactly that one
/// registration is reported as a success, and each of the others as
/// `DuplicateUsername`.
pub proof fn duplicates_are_reported(replies: Seq<InsertReply>, winner: int)
    requires
        0 <= winner < replies.len(),
        replies[winner] == InsertReply::Inserted,
        forall|i: int|
            0 <= i < replies.len() && i != winner ==> replies[i] == InsertReply::UniqueViolation,
    ensures
        forall|i: int|
            0 <= i < replies.len() ==> (insert_result(#[trigger] replies[i]) is Ok <==> i
                == winner),
        forall|i: int|
            0 <= i < replies.len() && i != winner ==> insert_result(#[trigger] replies[i])
                == Err::<(), AuthError>(AuthError::DuplicateUsername),
{
}

/// A registration never ends on the dashboard, whatever its outcome: it
/// ends on the start page exactly when the row was inserted, and a refused
/// duplicate is reported as `DuplicateUsername` and leads back to the form.
pub proof fn registration_stays_anonymous(outcome: Result<(), AuthError>, reply: InsertReply)
    ensures
        registration_target(outcome) != Redirect::Dashboard,
        registration_target(insert_result(reply)) == Redirect::Index <==> reply
            == InsertReply::Inserted,
        reply == InsertReply::UniqueViolation <==> insert_result(reply) == Err::<(), AuthError>(
            AuthError::DuplicateUsername,
        ),
{
}

} // verus!

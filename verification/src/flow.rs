use vstd::prelude::*;
use crate::credentials::{
    create_user, insert_outcome, insert_result, valid_credentials, validate_user, InsertReply, LookupReply, NewUser,
};
use crate::error::AuthError;
use crate::hashing::{cost_allowed, password_accepted};
use crate::session::{issue, resolved, session_cookie, session_cookie_name, SessionKey};
use crate::text::string_view;

verus! {

/// The fields of the login form.
#[derive(Debug)]
pub struct LoginData {
    pub username: String,
    pub password: String,
}

/// The fields of the registration form.
#[derive(Debug)]
pub struct RegisterData {
    pub username: String,
    pub password: String,
}

/// Where a response sends the browser.
#[derive(Clone, Copy, Debug, PartialEq, Eq, Structural)]
pub enum Redirect {
    /// The anonymous start page.
    Index,
    /// The protected dashboard.
    Dashboard,
    /// The registration form.
    Register,
}

impl Redirect {
    /// The path that the redirect names.
    pub open spec fn path(self) -> Seq<char> {
        match self {
            Redirect::Index => "/"@,
            Redirect::Dashboard => "/dashboard"@,
            Redirect::Register => "/register"@,
        }
    }

    /// The value of the response's `Location` header.
    pub fn location(&self) -> (r: &'static str)
        ensures
            r@ == self.path(),
    {
        match self {
            Redirect::Index => "/",
            Redirect::Dashboard => "/dashboard",
            Redirect::Register => "/register",
        }
    }
}

/// The answer to a submitted login form: where to go, and the session token
/// to hand to the client if the login succeeded.
#[derive(Debug)]
pub struct LoginResponse {
    pub redirect: Redirect,
    pub token: Option<String>,
}

/// What follows a submitted registration form.
#[derive(Debug)]
pub enum RegisterStep {
    /// The row is ready: insert it and report the storage's reply.
    Insert(NewUser),
    /// No row could be made: report this failure and store nothing.
    Failed(AuthError),
}

/// The answer to a logout: the cookie the client must discard, and where to go.
#[derive(Debug)]
pub struct LogoutResponse {
    pub discard: &'static str,
    pub redirect: Redirect,
}

/// The answer to every login that is refused, whatever the reason.
pub open spec fn refused_login() -> LoginResponse {
    LoginResponse { redirect: Redirect::Index, token: None }
}

/// Where a registration ends: on the start page after success, on the form
/// again after any failure. It never ends on the dashboard, since
/// registering does not log the user in.
pub open spec fn registration_target(outcome: Result<(), AuthError>) -> Redirect {
    if outcome is Ok {
        Redirect::Index
    } else {
        Redirect::Register
    }
}

/// Logs a user in: given the storage's reply to the lookup of `username`,
/// returns a fresh session token for `username` exactly when a row was found
/// and its hash accepts the password, and `InvalidCredentials` otherwise,
/// whether the user is unknown, the password is wrong or the storage failed.
pub fn login(
    key: &SessionKey,
    reply: &LookupReply,
    username: &str,
    password: &str,
) -> (r: Result<String, AuthError>)
    ensures
        match r {
            Ok(token) => {
                &&& valid_credentials(reply.stored(), password@)
                &&& resolved(key@, Some(token@)) == Some(username@)
            },
            Err(e) => {
                &&& !valid_credentials(reply.stored(), password@)
                &&& e == AuthError::InvalidCredentials
            },
        },
{
    match validate_user(reply, password) {
        Ok(true) => Ok(issue(key, username)),
        _ => Err(AuthError::InvalidCredentials),
    }
}

/// What a response to a submitted login form must be: for valid credentials
/// the dashboard with a token that resolves to the form's username, and for
/// anything else the one refusal.
pub open spec fn answers_login(
    key: Seq<u8>,
    stored_hash: Option<Seq<char>>,
    username: Seq<char>,
    password: Seq<char>,
    response: LoginResponse,
) -> bool {
    if valid_credentials(stored_hash, password) {
        &&& response.redirect == Redirect::Dashboard
        &&& response.token is Some
        &&& resolved(key, string_view(response.token)) == Some(username)
    } else {
        response == refused_login()
    }
}

/// Handles a submitted login form. Valid credentials lead to the dashboard
/// with a session token for the form's username; anything else leads back to
/// the start page with no token.
pub fn login_submit(key: &SessionKey, reply: &LookupReply, data: &LoginData) -> (r: LoginResponse)
    ensures
        answers_login(key@, reply.stored(), data.username@, data.password@, r),
{
    match login(key, reply, data.username.as_str(), data.password.as_str()) {
        Ok(token) => LoginResponse { redirect: Redirect::Dashboard, token: Some(token) },
        Err(_) => LoginResponse { redirect: Redirect::Index, token: None },
    }
}

/// The step that follows the making of a row: insert it where there is
/// one, and report the failure where there is none.
pub open spec fn step_after(created: Result<NewUser, AuthError>) -> RegisterStep {
    match created {
        Ok(row) => RegisterStep::Insert(row),
        Err(e) => RegisterStep::Failed(e),
    }
}

/// Decides what follows the making of a row.
pub fn register_step(created: Result<NewUser, AuthError>) -> (r: RegisterStep)
    ensures
        r == step_after(created),
{
    match created {
        Ok(row) => RegisterStep::Insert(row),
        Err(e) => RegisterStep::Failed(e),
    }
}

/// Handles a submitted registration form up to the storage: the row to
/// insert, holding the form's username and a hash that accepts the form's
/// password, or `HashingFailure` where no hash could be made.
pub fn register_submit(data: &RegisterData, cost: u32) -> (r: RegisterStep)
    ensures
        match r {
            RegisterStep::Insert(row) => {
                &&& cost_allowed(cost)
                &&& row.username@ == data.username@
                &&& password_accepted(data.password@, row.password_hash@)
            },
            RegisterStep::Failed(e) => e == AuthError::HashingFailure,
        },
{
    register_step(create_user(data.username.as_str(), data.password.as_str(), cost))
}

/// Picks the page that ends a registration with the given outcome.
pub fn register_redirect(outcome: Result<(), AuthError>) -> (r: Redirect)
    ensures
        r == registration_target(outcome),
{
    match outcome {
        Ok(_) => Redirect::Index,
        Err(_) => Redirect::Register,
    }
}

/// Ends a registration once the storage has answered: the start page after
/// an insertion, the form again after a duplicate or a storage fault.
pub fn register_stored(reply: InsertReply) -> (r: Redirect)
    ensures
        r == registration_target(insert_result(reply)),
{
    register_redirect(insert_outcome(reply))
}

/// Logs out: tells the client to discard the session cookie and sends it to
/// the start page. Nothing is recorded on the server.
pub fn logout() -> (r: LogoutResponse)
    ensures
        r.discard@ == session_cookie(),
        r.redirect == Redirect::Index,
{
    LogoutResponse { discard: session_cookie_name(), redirect: Redirect::Index }
}

/// Where an anonymous caller who asks for the dashboard is sent.
pub fn dashboard_unauthenticated() -> (r: Redirect)
    ensures
        r == Redirect::Index,
{
    Redirect::Index
}

} // verus!

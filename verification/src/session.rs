use vstd::prelude::*;
use crate::text::{str_view, string_view};

verus! {

/// The number of key bytes that sealing needs.
pub const KEY_LEN: usize = 64;

/// The name under which the session token travels; it is bound into the seal.
pub open spec fn session_cookie() -> Seq<char> {
    "user_id"@
}

/// The session cookie's name.
pub fn session_cookie_name() -> (r: &'static str)
    ensures
        r@ == session_cookie(),
{
    "user_id"
}

/// The server's symmetric key: at least 64 bytes, fixed at startup and only
/// read afterwards.
pub struct SessionKey {
    bytes: Vec<u8>,
}

impl SessionKey {
    /// The key's bytes.
    pub closed spec fn view(&self) -> Seq<u8> {
        self.bytes@
    }

    #[verifier::type_invariant]
    closed spec fn long_enough(&self) -> bool {
        self.bytes@.len() >= KEY_LEN
    }

    /// Accepts key material of 64 bytes or more and refuses shorter material.
    pub fn new(bytes: Vec<u8>) -> (r: Option<SessionKey>)
        ensures
            r is Some <==> bytes@.len() >= KEY_LEN,
            r matches Some(k) ==> k@ == bytes@,
    {
        if bytes.len() >= KEY_LEN {
            Some(SessionKey { bytes })
        } else {
            None
        }
    }
}

/// What opening a sealed value gives under a key and a cookie name: the
/// plaintext where `cookie::PrivateJar::get` returns a cookie, `None` where
/// it returns none.
pub uninterp spec fn unsealed(
    key: Seq<u8>,
    name: Seq<char>,
    token: Seq<char>,
) -> Option<Seq<char>>;

/// The identity that a presented token stands for under a key, if any.
pub open spec fn resolved(key: Seq<u8>, token: Option<Seq<char>>) -> Option<Seq<char>> {
    match token {
        Some(t) => unsealed(key, session_cookie(), t),
        None => None,
    }
}

/// Adds a cookie to a private child jar of `cookie::CookieJar` and reads the
/// sealed value back: AES-256-GCM under the key's encryption half with a
/// fresh random nonce and the cookie's name as associated data, then Base64.
/// Trusted: a private jar with the same key and name opens the value to the
/// plaintext, as the crate documents. The value itself differs from call to
/// call. The crate panics if the system's random source fails.
#[verifier::external_body]
fn seal(key: &[u8], name: &str, value: &str) -> (token: String)
    requires
        key@.len() >= KEY_LEN,
    ensures
        unsealed(key@, name@, token@) == Some(value@),
{
    let mut jar = cookie::CookieJar::new();
    jar.private_mut(&cookie::Key::from(key)).add(
        cookie::Cookie::new(name.to_string(), value.to_string()),
    );
    jar.get(name).map(|c| c.value().to_string()).unwrap_or_default()
}

/// Puts a presented value into a `cookie::CookieJar` and reads it through
/// `cookie::PrivateJar::get`, which decodes, authenticates and decrypts it.
/// Trusted: the answer depends on the key, the name and the value alone, and
/// a value that fails any of the steps gives `None`, never a panic.
#[verifier::external_body]
fn unseal(key: &[u8], name: &str, token: &str) -> (r: Option<String>)
    requires
        key@.len() >= KEY_LEN,
    ensures
        string_view(r) == unsealed(key@, name@, token@),
{
    let mut jar = cookie::CookieJar::new();
    jar.add_original(cookie::Cookie::new(name.to_string(), token.to_string()));
    jar.private(&cookie::Key::from(key)).get(name).map(|c| c.value().to_string())
}

/// Mints the session token for an identity. The token does not show the
/// identity, and resolving it under the same key gives the identity back.
pub fn issue(key: &SessionKey, identity: &str) -> (token: String)
    ensures
        resolved(key@, Some(token@)) == Some(identity@),
{
    proof {
        use_type_invariant(key);
    }
    seal(key.bytes.as_slice(), session_cookie_name(), identity)
}

/// Resolves a presented token. No token, or one that does not verify under
/// the key, gives `None`.
pub fn resolve(key: &SessionKey, token: Option<&str>) -> (r: Option<String>)
    ensures
        string_view(r) == resolved(key@, str_view(token)),
{
    proof {
        use_type_invariant(key);
    }
    match token {
        Some(t) => unseal(key.bytes.as_slice(), session_cookie_name(), t),
        None => None,
    }
}

} // verus!

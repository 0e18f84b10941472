use auth_app::credentials::LookupReply;
use auth_app::error::AuthError;
use auth_app::flow::login;
use auth_app::guard::{resolve_identity, AuthUser, Identity};
use auth_app::session::{issue, resolve, session_cookie_name, SessionKey, KEY_LEN};

fn key_from(seed: u8) -> SessionKey {
    let bytes: Vec<u8> = (0..64u8).map(|i| i.wrapping_add(seed)).collect();
    SessionKey::new(bytes).expect("64 bytes are enough")
}

fn flip(token: &str, at: usize) -> String {
    let mut bytes = token.as_bytes().to_vec();
    bytes[at] = if bytes[at] == b'A' { b'B' } else { b'A' };
    String::from_utf8(bytes).unwrap()
}

#[test]
fn key_needs_sixty_four_bytes() {
    assert_eq!(KEY_LEN, 64);
    assert!(SessionKey::new(Vec::new()).is_none());
    assert!(SessionKey::new(vec![7u8; 63]).is_none());
    assert!(SessionKey::new(vec![7u8; 64]).is_some());
    assert!(SessionKey::new(vec![7u8; 100]).is_some());
}

#[test]
fn issued_token_resolves_to_the_identity() {
    let key = key_from(1);
    let token = issue(&key, "alice");
    assert_eq!(resolve(&key, Some(&token)), Some("alice".to_string()));
    match resolve_identity(&key, Some(&token)) {
        Identity::Authenticated(AuthUser(name)) => assert_eq!(name, "alice"),
        Identity::Anonymous => panic!("anonymous"),
    }
    assert!(resolve_identity(&key, Some(&token)).is_authenticated());
}

#[test]
fn token_does_not_show_the_identity() {
    let key = key_from(1);
    let token = issue(&key, "alice-in-wonderland");
    assert_ne!(token, "alice-in-wonderland");
    assert!(!token.contains("alice"));
    assert_ne!(issue(&key, "alice-in-wonderland"), token);
}

#[test]
fn empty_and_unusual_identities_round_trip() {
    let key = key_from(9);
    for name in ["", " ", "Ünï çødé", "a=b; c", "x".repeat(5000).as_str()] {
        let token = issue(&key, name);
        assert_eq!(resolve(&key, Some(&token)).as_deref(), Some(name));
    }
}

#[test]
fn flipped_token_is_anonymous() {
    let key = key_from(1);
    let token = issue(&key, "alice");
    for at in 0..token.len() {
        if token.as_bytes()[at] == b'=' {
            continue;
        }
        let forged = flip(&token, at);
        assert_ne!(forged, token);
        assert!(matches!(resolve_identity(&key, Some(&forged)), Identity::Anonymous));
        assert!(AuthUser::from_request(&key, Some(&forged)).is_none());
    }
}

#[test]
fn malformed_tokens_are_anonymous() {
    let key = key_from(1);
    for token in ["", "alice", "!!!!", "AAAA", "AAAAAAAAAAAAAAAAAAAAAAAAAAAAAAAAAAAAAAAA", "\u{0}"] {
        assert_eq!(resolve(&key, Some(token)), None);
        assert!(!resolve_identity(&key, Some(token)).is_authenticated());
    }
    assert_eq!(resolve(&key, None), None);
    assert!(matches!(resolve_identity(&key, None), Identity::Anonymous));
    assert!(AuthUser::from_request(&key, None).is_none());
}

#[test]
fn token_of_another_key_is_anonymous() {
    let token = issue(&key_from(1), "alice");
    assert_eq!(resolve(&key_from(2), Some(&token)), None);
}

#[test]
fn only_the_first_sixty_four_bytes_count() {
    let mut long: Vec<u8> = (0..64u8).collect();
    let short = SessionKey::new(long.clone()).unwrap();
    long.extend_from_slice(&[1, 2, 3]);
    let longer = SessionKey::new(long).unwrap();
    let token = issue(&short, "alice");
    assert_eq!(resolve(&longer, Some(&token)), Some("alice".to_string()));
}

#[test]
fn cookie_name() {
    assert_eq!(session_cookie_name(), "user_id");
}

#[test]
fn login_issues_a_token_only_for_valid_credentials() {
    let key = key_from(3);
    let hash =
        LookupReply::Found("$2y$05$bvIG6Nmid91Mu9RcmmWZfO5HJIMCT8riNW0hEp8f6/FuA2/mHZFpe".to_string());
    let token = login(&key, &hash, "frank", "password").expect("valid");
    assert_eq!(resolve(&key, Some(&token)), Some("frank".to_string()));
    assert_eq!(login(&key, &hash, "frank", "nope"), Err(AuthError::InvalidCredentials));
    assert_eq!(
        login(&key, &LookupReply::NotFound, "frank", "password"),
        Err(AuthError::InvalidCredentials)
    );
    assert_eq!(
        login(&key, &LookupReply::Unavailable, "frank", "password"),
        Err(AuthError::InvalidCredentials)
    );
}

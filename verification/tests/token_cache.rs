use oz_relayer::auth::{HandshakeToken, TokenCache};

#[test]
fn empty_cache_has_no_token() {
    let cache = TokenCache::new();
    let identity = String::from("key-a");
    assert!(cache.lookup(&identity, 0).is_none());
    assert!(cache.lookup(&identity, 1_000_000).is_none());
}

#[test]
fn valid_token_is_reused_unchanged() {
    let mut cache = TokenCache::new();
    let identity = String::from("key-a");
    let outcome = Some(HandshakeToken {
        access_token: String::from("token-one"),
        expires_in: 50,
    });
    let granted = cache.accept_handshake(&identity, 100, outcome);
    assert_eq!(granted, Some(String::from("token-one")));
    // Within the expiration window the cached token is answered, identically,
    // on every lookup; no fresh handshake is needed.
    let first = cache.lookup(&identity, 120);
    let second = cache.lookup(&identity, 149);
    assert_eq!(first, Some(String::from("token-one")));
    assert_eq!(second, Some(String::from("token-one")));
}

#[test]
fn expired_token_is_never_returned() {
    let mut cache = TokenCache::new();
    let identity = String::from("key-a");
    cache.store(&identity, &String::from("stale"), 100);
    // Usable strictly below the expiration timestamp only.
    assert_eq!(cache.lookup(&identity, 99), Some(String::from("stale")));
    assert!(cache.lookup(&identity, 100).is_none());
    assert!(cache.lookup(&identity, 150).is_none());
}

#[test]
fn failed_handshake_changes_nothing() {
    let mut cache = TokenCache::new();
    let identity = String::from("key-a");
    cache.store(&identity, &String::from("kept"), 1_000);
    let granted = cache.accept_handshake(&identity, 100, None);
    assert!(granted.is_none());
    assert_eq!(cache.lookup(&identity, 500), Some(String::from("kept")));
}

#[test]
fn new_token_replaces_old_entry() {
    let mut cache = TokenCache::new();
    let identity = String::from("key-a");
    cache.store(&identity, &String::from("old"), 100);
    cache.store(&identity, &String::from("new"), 300);
    assert_eq!(cache.lookup(&identity, 200), Some(String::from("new")));
    assert_eq!(cache.entries.len(), 1);
}

#[test]
fn distinct_identities_do_not_disturb_each_other() {
    let mut cache = TokenCache::new();
    let first = String::from("key-a");
    let second = String::from("key-b");
    cache.store(&first, &String::from("token-a"), 1_000);
    cache.store(&second, &String::from("token-b"), 2_000);
    assert_eq!(cache.lookup(&first, 500), Some(String::from("token-a")));
    assert_eq!(cache.lookup(&second, 500), Some(String::from("token-b")));
    // Overwriting one identity's token leaves the other identity's answer alone.
    cache.store(&second, &String::from("token-b2"), 3_000);
    assert_eq!(cache.lookup(&first, 500), Some(String::from("token-a")));
    assert_eq!(cache.lookup(&second, 500), Some(String::from("token-b2")));
}

#[test]
fn current_token_answers_only_stored_tokens() {
    let mut cache = TokenCache::new();
    let identity = String::from("key-a");
    assert!(cache.current_token(&identity).is_none());
    // An entry that never expires is answered whatever the sampled instant.
    cache.store(&identity, &String::from("long-lived"), u64::MAX);
    assert_eq!(cache.current_token(&identity), Some(String::from("long-lived")));
}

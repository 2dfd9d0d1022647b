use presign_proxy::Credential;
use presign_proxy::CredentialCache;

fn credential_expiring_at(expiry: Option<u64>) -> Credential {
    Credential {
        access_key: String::from("AKIDEXAMPLE"),
        secret_key: String::from("example-secret-key"),
        session_token: None,
        expiry,
    }
}

#[test]
fn credential_without_expiry_never_expires() {
    let c = credential_expiring_at(None);
    assert!(c.valid_at(0));
    assert!(c.valid_at(u64::MAX));
}

#[test]
fn credential_is_invalid_from_its_expiry_on() {
    let c = credential_expiring_at(Some(100));
    assert!(c.valid_at(99));
    assert!(!c.valid_at(100));
    assert!(!c.valid_at(101));
}

#[test]
fn empty_cache_always_wants_a_fetch() {
    let cache = CredentialCache::new();
    assert!(cache.needs_refresh(0));
    assert!(cache.needs_refresh(1_000_000));
}

#[test]
fn valid_window_requests_cause_exactly_one_fetch() {
    // N requests while the credential stays valid: only the first fetches.
    let mut cache = CredentialCache::new();
    let mut fetches: u32 = 0;
    for now in [10u64, 20, 30, 40, 50] {
        if cache.needs_refresh(now) {
            fetches += 1;
            cache.store(credential_expiring_at(Some(1000)));
        }
        let c = cache.current(now);
        assert!(c.valid_at(now));
    }
    assert_eq!(fetches, 1);
}

#[test]
fn request_after_expiry_fetches_exactly_once_more() {
    let mut cache = CredentialCache::new();
    let mut fetches: u32 = 0;
    // first request: cold cache, one fetch of a credential expiring at 100
    if cache.needs_refresh(10) {
        fetches += 1;
        cache.store(credential_expiring_at(Some(100)));
    }
    assert_eq!(fetches, 1);
    // second request at 50: still valid, no fetch
    if cache.needs_refresh(50) {
        fetches += 1;
        cache.store(credential_expiring_at(Some(100)));
    }
    assert_eq!(fetches, 1);
    // third request at 150: expired, exactly one fresh fetch
    if cache.needs_refresh(150) {
        fetches += 1;
        cache.store(credential_expiring_at(Some(1000)));
    }
    assert_eq!(fetches, 2);
    assert!(cache.current(150).valid_at(150));
}

#[test]
fn current_returns_the_stored_credential() {
    let mut cache = CredentialCache::new();
    cache.store(credential_expiring_at(Some(500)));
    let c = cache.current(499);
    assert_eq!(c.access_key, "AKIDEXAMPLE");
    assert_eq!(c.expiry, Some(500));
}

use convshare::keys::{KeyCache, KeyError, SigningKey, KEY_TTL_SECONDS};

fn key(kid: &str, n: &str) -> SigningKey {
    SigningKey {
        kid: kid.to_string(),
        alg: "RS256".to_string(),
        n: n.to_string(),
        e: "AQAB".to_string(),
    }
}

#[test]
fn empty_cache_needs_refresh_at_any_time() {
    let cache = KeyCache::new();
    assert!(cache.needs_refresh(0));
    assert!(cache.needs_refresh(12345));
}

#[test]
fn install_replaces_the_set_wholesale() {
    let mut cache = KeyCache::new();
    cache.install(vec![key("old", "m1")], 100);
    assert!(cache.lookup(&"old".to_string()).is_some());
    // The provider rotated "old" out: after the next install it is gone.
    cache.install(vec![key("fresh", "m2")], 200);
    assert!(cache.lookup(&"old".to_string()).is_none());
    let found = cache.lookup(&"fresh".to_string()).expect("fresh key");
    assert_eq!(found.n, "m2");
    assert_eq!(found.e, "AQAB");
}

#[test]
fn later_duplicate_entry_wins() {
    let mut cache = KeyCache::new();
    cache.install(vec![key("k", "first"), key("k", "second")], 100);
    let found = cache.lookup(&"k".to_string()).expect("key");
    assert_eq!(found.n, "second");
}

#[test]
fn refresh_happens_once_per_expiry() {
    let mut cache = KeyCache::new();
    cache.install(vec![key("k1", "m1")], 0);
    // Past the expiry instant a refresh is due; at the instant itself too.
    assert!(!cache.needs_refresh(KEY_TTL_SECONDS - 1));
    assert!(cache.needs_refresh(KEY_TTL_SECONDS));

    // The overdue resolution consumes one fetch and makes the cache fresh.
    let now = KEY_TTL_SECONDS + 5;
    let got = cache.get_key(&"k2".to_string(), now, Some(vec![key("k2", "m2")]));
    assert_eq!(got.expect("resolved after refresh").n, "m2");
    // Within the new window no further fetch is due, and lookups answer from
    // the installed set without consulting the fetch argument.
    assert!(!cache.needs_refresh(now + 1));
    let again = cache.get_key(&"k2".to_string(), now + 1, None);
    assert_eq!(again.expect("still resolved").n, "m2");
    // The old key was replaced wholesale.
    assert!(matches!(cache.get_key(&"k1".to_string(), now + 2, None), Err(KeyError::NotFound)));
}

#[test]
fn failed_refresh_keeps_the_stale_set() {
    let mut cache = KeyCache::new();
    cache.install(vec![key("k1", "m1")], 0);
    let now = KEY_TTL_SECONDS + 1;
    assert!(cache.needs_refresh(now));
    // The fetch failed: the stale set still answers.
    let got = cache.get_key(&"k1".to_string(), now, None);
    assert_eq!(got.expect("stale key still answers").n, "m1");
    // A failed refresh installs nothing, so the next resolution is another
    // refresh attempt.
    assert!(cache.needs_refresh(now + 1));
}

#[test]
fn failed_refresh_of_an_empty_cache_is_retrieval_failed() {
    let mut cache = KeyCache::new();
    assert!(matches!(cache.get_key(&"k1".to_string(), 10, None), Err(KeyError::RetrievalFailed)));
}

#[test]
fn unknown_kid_after_successful_refresh_is_not_found() {
    let mut cache = KeyCache::new();
    let got = cache.get_key(&"missing".to_string(), 10, Some(vec![key("k1", "m1")]));
    assert!(matches!(got, Err(KeyError::NotFound)));
    // The fetched set was installed all the same.
    assert!(!cache.needs_refresh(11));
}

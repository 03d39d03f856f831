//! The key cache and its refresh policy.

use backend::server::cache::{CacheError, JwkManager, KeyLookup, DEFAULT_MAX_AGE_SECS};
use backend::server::keys::{
    decode_key_set, fetched_key_set, key_set_from_parsed, FetchError, JsonWebKeySet, Jwk,
};

fn key(kid: &str) -> Jwk {
    Jwk {
        kid: kid.to_string(),
        kty: "RSA".to_string(),
        alg: "RS256".to_string(),
        n: "modulus".to_string(),
        e: "AQAB".to_string(),
        usage: "sig".to_string(),
    }
}

fn key_set(kids: &[&str]) -> JsonWebKeySet {
    JsonWebKeySet { keys: kids.iter().map(|kid| key(kid)).collect() }
}

fn kids(jwks: &JsonWebKeySet) -> Vec<String> {
    jwks.keys.iter().map(|key| key.kid.clone()).collect()
}

fn manager_at(now: u64) -> JwkManager {
    JwkManager::new("pool.example".to_string(), "client-1".to_string(), Ok(key_set(&["a", "b"])), now)
        .unwrap()
}

/// A provider that counts how often it is asked.
struct Provider {
    fetches: u32,
    answer: Option<Vec<&'static str>>,
}

/// One complete request for the keys, as a caller that holds the cache runs it.
fn serve(manager: &mut JwkManager, provider: &mut Provider, now: u64) -> Result<Vec<String>, CacheError> {
    match manager.get_jwks(now)? {
        KeyLookup::Fresh(jwks) => Ok(kids(&jwks)),
        KeyLookup::Stale => {
            provider.fetches += 1;
            let fetched = match &provider.answer {
                Some(names) => Ok(key_set(names)),
                None => Err(FetchError::Transport("timed out".to_string())),
            };
            Ok(kids(&manager.refresh(fetched, now)))
        }
    }
}

#[test]
fn key_set_url_is_well_known() {
    assert_eq!(
        JwkManager::jwks_url_for("cognito-idp.us-east-1.amazonaws.com/us-east-1_abc"),
        "https://cognito-idp.us-east-1.amazonaws.com/us-east-1_abc/.well-known/jwks.json"
    );
    assert_eq!(JwkManager::jwks_url_for(""), "https:///.well-known/jwks.json");
}

#[test]
fn construction_keeps_what_it_is_given() {
    let manager = manager_at(1_000);
    assert_eq!(manager.get_client_id(), "client-1");
    assert_eq!(manager.get_jwks_url(), "https://pool.example/.well-known/jwks.json");
    match manager.get_jwks(1_000) {
        Ok(KeyLookup::Fresh(jwks)) => assert_eq!(kids(&jwks), vec!["a", "b"]),
        other => panic!("unexpected answer: {:?}", other),
    }
}

#[test]
fn construction_fails_with_the_first_fetch() {
    let made = JwkManager::new(
        "pool.example".to_string(),
        "client-1".to_string(),
        Err(FetchError::Transport("no route".to_string())),
        1_000,
    );
    assert!(matches!(made, Err(FetchError::Transport(reason)) if reason == "no route"));
    let made = JwkManager::new(
        "pool.example".to_string(),
        "client-1".to_string(),
        Err(FetchError::MalformedBody("not JSON".to_string())),
        1_000,
    );
    assert!(matches!(made, Err(FetchError::MalformedBody(reason)) if reason == "not JSON"));
}

#[test]
fn default_window_is_five_minutes() {
    assert_eq!(DEFAULT_MAX_AGE_SECS, 300);
    let manager = manager_at(1_000);
    assert!(matches!(manager.get_jwks(1_300), Ok(KeyLookup::Fresh(_))));
    assert!(matches!(manager.get_jwks(1_301), Ok(KeyLookup::Stale)));
}

#[test]
fn window_can_be_configured() {
    let manager = manager_at(1_000).with_max_age(10);
    assert!(matches!(manager.get_jwks(1_010), Ok(KeyLookup::Fresh(_))));
    assert!(matches!(manager.get_jwks(1_011), Ok(KeyLookup::Stale)));
    assert_eq!(manager.get_client_id(), "client-1");
    let manager = manager_at(1_000).with_max_age(0);
    assert!(matches!(manager.get_jwks(1_000), Ok(KeyLookup::Fresh(_))));
    assert!(matches!(manager.get_jwks(1_001), Ok(KeyLookup::Stale)));
    let manager = manager_at(0).with_max_age(u64::MAX);
    assert!(matches!(manager.get_jwks(u64::MAX), Ok(KeyLookup::Fresh(_))));
}

#[test]
fn clock_behind_last_refresh_is_an_error() {
    let manager = manager_at(1_000);
    assert!(matches!(manager.get_jwks(999), Err(CacheError::ClockWentBackwards)));
    assert!(matches!(manager.get_jwks(0), Err(CacheError::ClockWentBackwards)));
}

#[test]
fn requests_within_the_window_fetch_nothing_then_one_fetch() {
    let mut manager = manager_at(1_000);
    let mut provider = Provider { fetches: 0, answer: Some(vec!["c"]) };
    for now in [1_000, 1_001, 1_150, 1_299, 1_300] {
        assert_eq!(serve(&mut manager, &mut provider, now), Ok(vec!["a".to_string(), "b".to_string()]));
    }
    assert_eq!(provider.fetches, 0);
    assert_eq!(serve(&mut manager, &mut provider, 1_301), Ok(vec!["c".to_string()]));
    assert_eq!(provider.fetches, 1);
    for now in [1_301, 1_400, 1_601] {
        assert_eq!(serve(&mut manager, &mut provider, now), Ok(vec!["c".to_string()]));
    }
    assert_eq!(provider.fetches, 1);
    assert_eq!(serve(&mut manager, &mut provider, 1_602), Ok(vec!["c".to_string()]));
    assert_eq!(provider.fetches, 2);
}

#[test]
fn requests_that_straddle_the_boundary_fetch_once() {
    let mut manager = manager_at(1_000);
    let mut provider = Provider { fetches: 0, answer: Some(vec!["c", "d"]) };
    // Every one of these found the key set stale under the read lock; they
    // take the write lock one after another and ask again.
    for now in [1_301, 1_301, 1_302, 1_302, 1_303] {
        assert!(serve(&mut manager, &mut provider, now).is_ok());
    }
    assert_eq!(provider.fetches, 1);
}

#[test]
fn failed_refresh_serves_the_last_good_keys() {
    let mut manager = manager_at(1_000);
    let mut provider = Provider { fetches: 0, answer: None };
    assert_eq!(serve(&mut manager, &mut provider, 2_000), Ok(vec!["a".to_string(), "b".to_string()]));
    assert_eq!(provider.fetches, 1);
    // Still stale: the next request tries again, once.
    assert!(matches!(manager.get_jwks(2_001), Ok(KeyLookup::Stale)));
    assert_eq!(serve(&mut manager, &mut provider, 2_001), Ok(vec!["a".to_string(), "b".to_string()]));
    assert_eq!(provider.fetches, 2);
    provider.answer = Some(vec!["z"]);
    assert_eq!(serve(&mut manager, &mut provider, 2_002), Ok(vec!["z".to_string()]));
    assert_eq!(provider.fetches, 3);
    assert!(matches!(manager.get_jwks(2_302), Ok(KeyLookup::Fresh(_))));
}

#[test]
fn refresh_replaces_the_key_set_whole() {
    let mut manager = manager_at(1_000);
    let before = match manager.get_jwks(1_000) {
        Ok(KeyLookup::Fresh(jwks)) => jwks,
        other => panic!("unexpected answer: {:?}", other),
    };
    let current = manager.refresh(Ok(key_set(&["x"])), 5_000);
    assert_eq!(kids(&current), vec!["x"]);
    assert_eq!(kids(&before), vec!["a", "b"]);
    assert!(matches!(manager.get_jwks(4_999), Err(CacheError::ClockWentBackwards)));
    assert!(matches!(manager.get_jwks(5_300), Ok(KeyLookup::Fresh(_))));
    let current = manager.refresh(Err(FetchError::MalformedBody("<html>".to_string())), 9_000);
    assert_eq!(kids(&current), vec!["x"]);
    assert!(matches!(manager.get_jwks(5_300), Ok(KeyLookup::Fresh(_))));
    assert!(matches!(manager.get_jwks(5_301), Ok(KeyLookup::Stale)));
}

const DOCUMENT: &str = "{\"keys\":[\
    {\"kid\":\"k1\",\"kty\":\"RSA\",\"alg\":\"RS256\",\"n\":\"n1\",\"e\":\"AQAB\",\"use\":\"sig\"},\
    {\"alg\":\"RS384\",\"e\":\"e2\",\"kid\":\"k2\",\"kty\":\"rsa\",\"n\":\"n2\",\"use\":\"enc\",\"x5c\":[1,2]}\
    ],\"extra\":true}";

#[test]
fn key_set_document_is_decoded_in_order() {
    let jwks = decode_key_set(DOCUMENT).unwrap();
    assert_eq!(jwks.keys.len(), 2);
    assert_eq!(jwks.keys[0].kid, "k1");
    assert_eq!(jwks.keys[0].kty, "RSA");
    assert_eq!(jwks.keys[0].alg, "RS256");
    assert_eq!(jwks.keys[0].n, "n1");
    assert_eq!(jwks.keys[0].e, "AQAB");
    assert_eq!(jwks.keys[0].usage, "sig");
    assert_eq!(jwks.keys[1].kid, "k2");
    assert_eq!(jwks.keys[1].kty, "rsa");
    assert_eq!(jwks.keys[1].alg, "RS384");
    assert_eq!(jwks.keys[1].n, "n2");
    assert_eq!(jwks.keys[1].e, "e2");
    assert_eq!(jwks.keys[1].usage, "enc");
    assert_eq!(decode_key_set("{\"keys\":[]}").unwrap().keys.len(), 0);
}

#[test]
fn malformed_documents_are_malformed_bodies() {
    for body in [
        "",
        "not json",
        "[]",
        "null",
        "{}",
        "{\"keys\":{}}",
        "{\"keys\":\"k1\"}",
        "{\"keys\":[1]}",
        "{\"keys\":[{\"kid\":\"k1\"}]}",
        "{\"keys\":[{\"kid\":1,\"kty\":\"RSA\",\"alg\":\"RS256\",\"n\":\"n\",\"e\":\"e\",\"use\":\"sig\"}]}",
        "{\"keys\":[{\"kid\":\"k\",\"kty\":\"RSA\",\"alg\":\"RS256\",\"n\":\"n\",\"e\":\"e\"}]}",
        "{\"keys\":[{\"kid\":\"k\",\"kty\":\"RSA\",\"alg\":\"RS256\",\"n\":\"n\",\"e\":\"e\",\"use\":\"sig\"},{}]}",
        "{\"keys\":[",
    ] {
        match decode_key_set(body) {
            Err(FetchError::MalformedBody(text)) => {
                assert_eq!(text, "the body does not describe a key set")
            }
            other => panic!("unexpected outcome for {:?}: {:?}", body, other),
        }
    }
}

#[test]
fn parsed_documents_are_read_as_key_sets() {
    let parsed = serde_json::from_str::<serde_json::Value>(DOCUMENT);
    assert_eq!(kids(&key_set_from_parsed(&parsed).unwrap()), vec!["k1", "k2"]);
    let parsed = serde_json::from_str::<serde_json::Value>("{\"keys\":[{}]}");
    assert!(key_set_from_parsed(&parsed).is_none());
    let parsed = serde_json::from_str::<serde_json::Value>("{");
    assert!(parsed.is_err());
    assert!(key_set_from_parsed(&parsed).is_none());
}

#[test]
fn fetch_outcomes_tell_transport_from_body() {
    let jwks = fetched_key_set(Ok(DOCUMENT.to_string())).unwrap();
    assert_eq!(kids(&jwks), vec!["k1", "k2"]);
    assert!(matches!(
        fetched_key_set(Err("connection refused".to_string())),
        Err(FetchError::Transport(reason)) if reason == "connection refused"
    ));
    assert!(matches!(
        fetched_key_set(Ok("<html></html>".to_string())),
        Err(FetchError::MalformedBody(_))
    ));
}

#[test]
fn construction_from_a_fetched_document() {
    let manager = JwkManager::new(
        "pool.example".to_string(),
        "client-1".to_string(),
        fetched_key_set(Ok(DOCUMENT.to_string())),
        50,
    )
    .unwrap();
    match manager.get_jwks(60) {
        Ok(KeyLookup::Fresh(jwks)) => assert_eq!(kids(&jwks), vec!["k1", "k2"]),
        other => panic!("unexpected answer: {:?}", other),
    }
    let made = JwkManager::new(
        "pool.example".to_string(),
        "client-1".to_string(),
        fetched_key_set(Ok("{}".to_string())),
        50,
    );
    assert!(matches!(made, Err(FetchError::MalformedBody(_))));
}

/// One complete request behind a reader/writer lock: ask under the read lock,
/// and where the key set is stale ask again under the write lock before
/// fetching. The clock is read while the lock is held.
async fn serve_locked(
    cache: &tokio::sync::RwLock<JwkManager>,
    clock: &std::sync::atomic::AtomicU64,
    fetches: &std::sync::atomic::AtomicU32,
) -> Result<Vec<String>, CacheError> {
    {
        let cached = cache.read().await;
        let now = clock.load(std::sync::atomic::Ordering::SeqCst);
        if let KeyLookup::Fresh(jwks) = cached.get_jwks(now)? {
            return Ok(kids(&jwks));
        }
    }
    let mut guard = cache.write().await;
    let now = clock.load(std::sync::atomic::Ordering::SeqCst);
    match guard.get_jwks(now)? {
        KeyLookup::Fresh(jwks) => Ok(kids(&jwks)),
        KeyLookup::Stale => {
            fetches.fetch_add(1, std::sync::atomic::Ordering::SeqCst);
            tokio::task::yield_now().await;
            let now = clock.load(std::sync::atomic::Ordering::SeqCst);
            Ok(kids(&guard.refresh(Ok(key_set(&["new"])), now)))
        }
    }
}

#[test]
fn concurrent_requests_at_the_boundary_fetch_once() {
    let runtime = tokio::runtime::Builder::new_multi_thread().worker_threads(4).build().unwrap();
    let cache = std::sync::Arc::new(tokio::sync::RwLock::new(manager_at(1_000)));
    let clock = std::sync::Arc::new(std::sync::atomic::AtomicU64::new(1_300));
    let fetches = std::sync::Arc::new(std::sync::atomic::AtomicU32::new(0));
    let answers = runtime.block_on(async {
        let mut tasks = Vec::new();
        for i in 0..32u64 {
            let cache = cache.clone();
            let clock = clock.clone();
            let fetches = fetches.clone();
            tasks.push(tokio::spawn(async move {
                if i == 7 {
                    // The key set goes stale while the requests are under way.
                    clock.store(1_301, std::sync::atomic::Ordering::SeqCst);
                }
                serve_locked(&cache, &clock, &fetches).await
            }));
        }
        let mut answers = Vec::new();
        for task in tasks {
            answers.push(task.await.unwrap());
        }
        answers
    });
    assert_eq!(fetches.load(std::sync::atomic::Ordering::SeqCst), 1);
    assert_eq!(answers.len(), 32);
    for answer in answers {
        let answer = answer.unwrap();
        assert!(answer == vec!["a".to_string(), "b".to_string()] || answer == vec!["new".to_string()]);
    }
    assert_eq!(
        runtime.block_on(serve_locked(&cache, &clock, &fetches)),
        Ok(vec!["new".to_string()])
    );
    assert_eq!(fetches.load(std::sync::atomic::Ordering::SeqCst), 1);
}

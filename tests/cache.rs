use std::sync::atomic::{AtomicU32, Ordering};
use std::sync::Arc;
use yggdrasil::cache::{utc_day, CacheStep, RefreshingCache, UpstreamError, SECONDS_PER_DAY};

/// Runs one serialized `get()` on `today`; `fetch` is called only on a miss.
fn get(
    cache: &mut RefreshingCache,
    today: u64,
    fetches: &mut u32,
    fetch: &dyn Fn() -> Result<String, UpstreamError>,
) -> Result<String, UpstreamError> {
    match cache.lookup(today) {
        CacheStep::Hit(v) => Ok(v),
        CacheStep::Fetch => {
            *fetches += 1;
            cache.complete(today, fetch())
        }
    }
}

#[test]
fn utc_day_boundaries() {
    assert_eq!(utc_day(0), 0);
    assert_eq!(utc_day(SECONDS_PER_DAY - 1), 0);
    assert_eq!(utc_day(SECONDS_PER_DAY), 1);
    assert_eq!(utc_day(1_700_000_000), 19675);
    assert_eq!(utc_day(u64::MAX), u64::MAX / 86400);
}

#[test]
fn cold_cache_fetches() {
    let cache = RefreshingCache::new();
    assert!(matches!(cache.lookup(5), CacheStep::Fetch));
}

#[test]
fn queued_calls_on_stale_day_fetch_once() {
    let mut cache = RefreshingCache::new();
    let mut fetches = 0u32;
    let fetch = || Ok(String::from("{\"title\":\"apod\"}"));
    let mut replies = Vec::new();
    for _ in 0..5 {
        replies.push(get(&mut cache, 100, &mut fetches, &fetch));
    }
    assert_eq!(fetches, 1);
    for r in replies {
        assert_eq!(r, Ok(String::from("{\"title\":\"apod\"}")));
    }
}

#[test]
fn stale_entry_from_earlier_day_is_refetched_once() {
    let mut cache = RefreshingCache::new();
    let mut fetches = 0u32;
    assert_eq!(get(&mut cache, 1, &mut fetches, &|| Ok(String::from("old"))), Ok(String::from("old")));
    let mut replies = Vec::new();
    for _ in 0..3 {
        replies.push(get(&mut cache, 2, &mut fetches, &|| Ok(String::from("new"))));
    }
    assert_eq!(fetches, 2);
    assert!(replies.iter().all(|r| *r == Ok(String::from("new"))));
}

#[test]
fn day_change_triggers_one_more_fetch() {
    let mut cache = RefreshingCache::new();
    let mut fetches = 0u32;
    let fetch = || Ok(String::from("v"));
    get(&mut cache, 10, &mut fetches, &fetch).unwrap();
    get(&mut cache, 10, &mut fetches, &fetch).unwrap();
    let before = fetches;
    get(&mut cache, 11, &mut fetches, &fetch).unwrap();
    assert_eq!(fetches, before + 1);
    get(&mut cache, 11, &mut fetches, &fetch).unwrap();
    assert_eq!(fetches, before + 1);
}

#[test]
fn failed_fetch_on_cold_cache_is_retried() {
    let mut cache = RefreshingCache::new();
    let mut fetches = 0u32;
    let first = get(&mut cache, 7, &mut fetches, &|| Err(UpstreamError::Unavailable));
    assert_eq!(first, Err(UpstreamError::Unavailable));
    assert_eq!(fetches, 1);
    let second = get(&mut cache, 7, &mut fetches, &|| Ok(String::from("ok")));
    assert_eq!(fetches, 2);
    assert_eq!(second, Ok(String::from("ok")));
}

#[test]
fn failed_refresh_keeps_stale_entry() {
    let mut cache = RefreshingCache::new();
    assert_eq!(cache.complete(3, Ok(String::from("a"))), Ok(String::from("a")));
    assert_eq!(cache.complete(4, Err(UpstreamError::Unavailable)), Err(UpstreamError::Unavailable));
    match cache.lookup(3) {
        CacheStep::Hit(v) => assert_eq!(v, "a"),
        CacheStep::Fetch => panic!("entry for day 3 was lost"),
    }
    assert!(matches!(cache.lookup(4), CacheStep::Fetch));
}

#[test]
fn complete_stores_fetched_value() {
    let mut cache = RefreshingCache::new();
    cache.complete(9, Ok(String::from("x"))).unwrap();
    match cache.lookup(9) {
        CacheStep::Hit(v) => assert_eq!(v, "x"),
        CacheStep::Fetch => panic!("fresh entry not served"),
    }
}

#[test]
fn concurrent_gets_on_stale_day_share_one_fetch() {
    let runtime = tokio::runtime::Builder::new_multi_thread()
        .worker_threads(4)
        .enable_all()
        .build()
        .unwrap();
    let cache = Arc::new(tokio::sync::Mutex::new(RefreshingCache::new()));
    let fetches = Arc::new(AtomicU32::new(0));
    let replies = runtime.block_on(async {
        let mut handles = Vec::new();
        for _ in 0..16 {
            let cache = Arc::clone(&cache);
            let fetches = Arc::clone(&fetches);
            handles.push(tokio::spawn(async move {
                let mut guard = cache.lock().await;
                match guard.lookup(42) {
                    CacheStep::Hit(v) => Ok(v),
                    CacheStep::Fetch => {
                        let n = fetches.fetch_add(1, Ordering::SeqCst) + 1;
                        tokio::task::yield_now().await;
                        guard.complete(42, Ok(format!("value-{}", n)))
                    }
                }
            }));
        }
        let mut out = Vec::new();
        for h in handles {
            out.push(h.await.unwrap());
        }
        out
    });
    assert_eq!(fetches.load(Ordering::SeqCst), 1);
    assert_eq!(replies.len(), 16);
    for r in replies {
        assert_eq!(r, Ok(String::from("value-1")));
    }
}

use tracy_client::cache::{set_max_cache_size, StrCache, StrCacheGuard, DEFAULT_MAX_CACHE_SIZE};

fn buffer(capacity: usize) -> String {
    let mut s = String::with_capacity(capacity);
    s.push_str("leftover");
    s
}

#[test]
fn acquire_on_an_empty_cache_gives_a_fresh_buffer() {
    let mut cache = StrCache::new();
    assert_eq!(cache.max_cache_size(), DEFAULT_MAX_CACHE_SIZE);
    let guard = cache.acquire();
    assert_eq!(guard.as_str(), "");
    assert_eq!(cache.len(), 0);
    assert_eq!(cache.cached_bytes(), 0);
}

#[test]
fn released_buffers_come_back_cleared_most_recent_first() {
    let mut cache = StrCache::new();
    cache.release_with_capacity(buffer(100), 100);
    cache.release_with_capacity(buffer(200), 200);
    assert_eq!(cache.len(), 2);
    assert_eq!(cache.cached_bytes(), 300);
    let guard = cache.acquire();
    assert_eq!(guard.as_str(), "");
    assert_eq!(cache.cached_bytes(), 100);
    let guard = cache.acquire();
    assert_eq!(guard.into_inner(), "");
    assert_eq!(cache.cached_bytes(), 0);
}

#[test]
fn overflow_evicts_the_largest_buffer() {
    let mut cache = StrCache::new();
    set_max_cache_size(&mut cache, 1000);
    cache.release_with_capacity(buffer(600), 600);
    cache.release_with_capacity(buffer(300), 300);
    assert_eq!(cache.cached_bytes(), 900);
    cache.release_with_capacity(buffer(200), 200);
    assert_eq!(cache.len(), 2);
    assert_eq!(cache.cached_bytes(), 500);
    assert!(cache.cached_bytes() <= cache.max_cache_size());
}

#[test]
fn cache_stays_within_its_budget() {
    let mut cache = StrCache::new();
    set_max_cache_size(&mut cache, 256);
    let sizes = [64usize, 128, 32, 300, 64, 1, 255, 16, 200, 90];
    for (i, &size) in sizes.iter().enumerate() {
        cache.release_with_capacity(buffer(size), size);
        assert!(cache.cached_bytes() <= 256);
        if i % 3 == 2 {
            let _ = cache.acquire();
            assert!(cache.cached_bytes() <= 256);
        }
    }
}

#[test]
fn disabled_cache_keeps_nothing() {
    let mut cache = StrCache::new();
    set_max_cache_size(&mut cache, 0);
    cache.release_with_capacity(buffer(64), 64);
    assert_eq!(cache.len(), 0);
    assert_eq!(cache.cached_bytes(), 0);
}

#[test]
fn zero_capacity_and_address_space_edge_are_dropped() {
    let mut cache = StrCache::new();
    set_max_cache_size(&mut cache, usize::MAX);
    cache.release_with_capacity(String::new(), 0);
    assert_eq!(cache.len(), 0);
    cache.release_with_capacity(buffer(10), usize::MAX);
    assert_eq!(cache.len(), 0);
    cache.release_with_capacity(buffer(10), 10);
    assert_eq!(cache.cached_bytes(), 10);
}

#[test]
fn lowering_the_budget_keeps_cached_buffers() {
    let mut cache = StrCache::new();
    cache.release_with_capacity(buffer(500), 500);
    cache.release_with_capacity(buffer(400), 400);
    set_max_cache_size(&mut cache, 100);
    assert_eq!(cache.cached_bytes(), 900);
    cache.release_with_capacity(buffer(50), 50);
    assert_eq!(cache.len(), 2);
    assert_eq!(cache.cached_bytes(), 450);
}

#[test]
fn release_measures_the_real_capacity() {
    let mut cache = StrCache::new();
    let mut guard = cache.acquire();
    guard.push_str("some formatted text");
    assert_eq!(guard.as_str(), "some formatted text");
    cache.release(guard);
    assert_eq!(cache.len(), 1);
    assert!(cache.cached_bytes() >= 64);
    let again = cache.acquire();
    assert_eq!(again.as_str(), "");
    cache.release(StrCacheGuard::new(String::new()));
    assert_eq!(cache.len(), 0);
}

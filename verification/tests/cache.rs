use space_eye::cache::{CacheStep, CatalogCache, FRESHNESS_WINDOW};
use space_eye::catalog::{CachedCatalog, Catalog, Satellite};
use space_eye::fetch::{conclude, FetchError, FetchResponse, TransportFailure};

const T: u64 = 1_700_000_000;

fn catalog(name: &str) -> Catalog {
    Catalog {
        dns_http_probe_override: vec![format!("{}.example", name)],
        satellites: vec![Satellite { id: 1, name: String::from(name), views: vec![] }],
    }
}

fn snapshot(name: &str, at: u64) -> CachedCatalog {
    CachedCatalog { catalog: catalog(name), etag: format!("etag-{}", name), downloaded_at: at }
}

fn refresh(
    cache: &mut CatalogCache,
    now: u64,
    outcome: Result<CachedCatalog, FetchError>,
) -> Result<&Catalog, FetchError> {
    match cache.get_current(now) {
        CacheStep::Refresh(pending) => pending.complete(outcome),
        CacheStep::Serve(_) => panic!("no refresh is due at {}", now),
    }
}

fn cache_with(name: &str, at: u64) -> CatalogCache {
    let mut cache = CatalogCache::new();
    assert!(refresh(&mut cache, at, Ok(snapshot(name, at))).is_ok());
    cache
}

fn serves(cache: &mut CatalogCache, now: u64) -> Option<Catalog> {
    match cache.get_current(now) {
        CacheStep::Serve(catalog) => Some(catalog.clone()),
        CacheStep::Refresh(_) => None,
    }
}

fn due(cache: &mut CatalogCache, now: u64) -> bool {
    matches!(cache.get_current(now), CacheStep::Refresh(_))
}

fn reply(etag: Option<&str>, body: &str) -> FetchResponse {
    FetchResponse { status: 200, etag: etag.map(String::from), body: body.as_bytes().to_vec() }
}

#[test]
fn the_window_is_fifteen_minutes() {
    assert_eq!(FRESHNESS_WINDOW, 900);
    assert_eq!(FRESHNESS_WINDOW, 60 * 15);
}

#[test]
fn a_new_cache_holds_nothing_and_asks_for_a_fetch() {
    let mut cache = CatalogCache::new();
    assert!(cache.stored().is_none());
    assert!(due(&mut cache, 0));
    assert!(due(&mut cache, T));
    assert!(due(&mut cache, u64::MAX));
    assert!(CatalogCache::default().stored().is_none());
}

#[test]
fn a_snapshot_is_served_until_899_seconds_after_its_fetch() {
    let mut cache = cache_with("first", T);
    assert_eq!(serves(&mut cache, T), Some(catalog("first")));
    assert_eq!(serves(&mut cache, T + 1), Some(catalog("first")));
    assert_eq!(serves(&mut cache, T + 899), Some(catalog("first")));
}

#[test]
fn from_900_seconds_on_a_fetch_is_due() {
    let mut cache = cache_with("first", T);
    assert!(due(&mut cache, T + 900));
    assert!(due(&mut cache, T + 901));
    assert!(due(&mut cache, u64::MAX));
}

#[test]
fn freshness_goes_by_the_two_times_and_not_by_the_reads() {
    let mut cache = cache_with("first", T);
    for _ in 0..50 {
        assert!(!due(&mut cache, T + 899));
    }
    assert!(due(&mut cache, T + 900));
    assert!(!due(&mut cache, T + 899));
}

#[test]
fn a_snapshot_stamped_after_now_is_served() {
    let mut cache = cache_with("first", T);
    assert_eq!(serves(&mut cache, T - 1), Some(catalog("first")));
    assert_eq!(serves(&mut cache, 0), Some(catalog("first")));
}

#[test]
fn the_window_does_not_wrap_at_the_end_of_time() {
    let mut cache = cache_with("late", u64::MAX - 10);
    assert_eq!(serves(&mut cache, u64::MAX), Some(catalog("late")));
    assert!(cache.stored().unwrap().is_fresh(u64::MAX));
    let zero = cache_with("early", 0);
    assert!(zero.stored().unwrap().is_fresh(899));
    assert!(!zero.stored().unwrap().is_fresh(900));
}

#[test]
fn serving_gives_the_catalog_of_the_held_snapshot_and_changes_nothing() {
    let mut cache = cache_with("first", T);
    assert_eq!(serves(&mut cache, T + 10), Some(catalog("first")));
    assert_eq!(cache.stored(), Some(&snapshot("first", T)));
    assert_eq!(serves(&mut cache, T + 10).as_ref(), cache.stored().map(|held| &held.catalog));
}

#[test]
fn a_refresh_that_succeeds_returns_the_new_catalog() {
    let mut cache = CatalogCache::new();
    assert_eq!(refresh(&mut cache, T, Ok(snapshot("first", T))), Ok(&catalog("first")));
    assert_eq!(cache.stored(), Some(&snapshot("first", T)));
}

#[test]
fn a_refresh_replaces_the_snapshot_as_a_whole() {
    let mut cache = cache_with("old", T);
    assert_eq!(refresh(&mut cache, T + 900, Ok(snapshot("new", T + 900))), Ok(&catalog("new")));
    let held = cache.stored().unwrap();
    assert_eq!(held.catalog, catalog("new"));
    assert_eq!(held.etag, "etag-new");
    assert_eq!(held.downloaded_at, T + 900);
    assert_eq!(serves(&mut cache, T + 900), Some(catalog("new")));
    assert_eq!(serves(&mut cache, T + 1799), Some(catalog("new")));
    assert!(due(&mut cache, T + 1800));
}

#[test]
fn a_refresh_that_is_given_up_changes_nothing() {
    let mut cache = cache_with("old", T);
    match cache.get_current(T + 900) {
        CacheStep::Refresh(pending) => drop(pending),
        CacheStep::Serve(_) => panic!("a stale snapshot was served"),
    }
    assert_eq!(cache.stored(), Some(&snapshot("old", T)));
    assert!(due(&mut cache, T + 900));
}

#[test]
fn a_pending_refresh_holds_the_cache_that_waits() {
    let mut cache = cache_with("old", T);
    match cache.get_current(T + 900) {
        CacheStep::Refresh(pending) => {
            assert_eq!(pending.cache.stored(), Some(&snapshot("old", T)));
            assert_eq!(pending.complete(Ok(snapshot("new", T + 901))), Ok(&catalog("new")));
        }
        CacheStep::Serve(_) => panic!("a stale snapshot was served"),
    }
    assert_eq!(cache.stored(), Some(&snapshot("new", T + 901)));
}

#[test]
fn a_first_refresh_that_fails_stores_nothing() {
    let mut cache = CatalogCache::new();
    assert_eq!(refresh(&mut cache, T, Err(FetchError::Malformed)), Err(FetchError::Malformed));
    assert!(cache.stored().is_none());
    assert!(due(&mut cache, T));
}

#[test]
fn a_later_refresh_that_fails_keeps_the_stale_snapshot_and_its_age() {
    let mut cache = cache_with("old", T);
    let failure = FetchError::Transport(TransportFailure::Status(503));
    assert_eq!(refresh(&mut cache, T + 900, Err(failure.clone())), Err(failure));
    assert_eq!(cache.stored(), Some(&snapshot("old", T)));
    assert!(due(&mut cache, T + 900));
    assert!(due(&mut cache, T + 5000));
    assert_eq!(serves(&mut cache, T + 5), Some(catalog("old")));
}

#[test]
fn every_error_is_handed_on_as_it_came() {
    let errors = [
        FetchError::Transport(TransportFailure::Network(String::from("timed out"))),
        FetchError::Transport(TransportFailure::Status(404)),
        FetchError::MissingMetadata,
        FetchError::Malformed,
    ];
    for e in errors {
        let mut cache = CatalogCache::new();
        assert_eq!(refresh(&mut cache, T, Err(e.clone())), Err(e));
        assert!(cache.stored().is_none());
    }
}

#[test]
fn a_response_without_etag_leaves_the_cache_empty() {
    let answer = reply(None, "{\"dnsHttpProbeOverride\":[],\"satellites\":[]}");
    let mut cache = CatalogCache::new();
    assert_eq!(refresh(&mut cache, T, conclude(Ok(answer), T)), Err(FetchError::MissingMetadata));
    assert!(cache.stored().is_none());
    assert!(due(&mut cache, T));
}

#[test]
fn a_response_without_etag_leaves_a_held_snapshot_alone() {
    let answer = reply(None, "{\"dnsHttpProbeOverride\":[],\"satellites\":[]}");
    let mut cache = cache_with("old", T);
    assert_eq!(
        refresh(&mut cache, T + 900, conclude(Ok(answer), T + 900)),
        Err(FetchError::MissingMetadata)
    );
    assert_eq!(cache.stored(), Some(&snapshot("old", T)));
}

#[test]
fn a_fetched_response_is_served_for_the_window() {
    let answer = reply(Some("v1"), "{\"dnsHttpProbeOverride\":[\"p\"],\"satellites\":[]}");
    let mut cache = CatalogCache::new();
    let expected = Catalog { dns_http_probe_override: vec![String::from("p")], satellites: vec![] };
    assert_eq!(refresh(&mut cache, T, conclude(Ok(answer), T)), Ok(&expected));
    assert_eq!(serves(&mut cache, T + 899), Some(expected));
    assert_eq!(serves(&mut cache, T + 900), None);
}

//! The cache of the catalog: the last snapshot that a fetch gave, how long
//! it is served, and how the next one takes its place.
//!
//! The cache never fetches. `get_current` either serves the snapshot or hands
//! out a `PendingRefresh`: the word that one fetch is due, and the exclusive
//! hold on the cache until that fetch is over. Whoever asked runs the fetch
//! and hands what it gave to `PendingRefresh::complete`. While a refresh is
//! pending nobody else can read or refresh the cache, so two fetches for one
//! cache never run side by side, and none can finish late and overwrite what
//! a later one stored.
//!
//! A refresh that fails is not made good with the old snapshot: the caller
//! gets the error, the cache stays as it was, and the next call hands out a
//! refresh again.

use crate::catalog::{CachedCatalog, CachedCatalogModel, Catalog};
use crate::fetch::{concluded, is_success, FetchError, FetchResponse};
use crate::json::JsonModel;
use vstd::prelude::*;

verus! {

/// For how many seconds after its fetch a snapshot is served.
pub const FRESHNESS_WINDOW: u64 = 900;

impl CachedCatalog {
    /// A snapshot is fresh at `now` while fewer than `FRESHNESS_WINDOW`
    /// seconds have gone by since its fetch. Only the two times count, not
    /// how often the snapshot was read. One that was stamped later than
    /// `now` is fresh.
    pub open spec fn is_fresh_at(self, now: u64) -> bool {
        now - self.downloaded_at < FRESHNESS_WINDOW
    }

    /// Whether this snapshot is fresh at `now`.
    pub fn is_fresh(&self, now: u64) -> (fresh: bool)
        ensures
            fresh == self.is_fresh_at(now),
    {
        now < self.downloaded_at || now - self.downloaded_at < FRESHNESS_WINDOW
    }
}

/// The catalog that a cache holding `snapshot` serves at `now`, if it serves
/// one: that of the snapshot, where there is one and it is fresh.
pub open spec fn served(snapshot: Option<CachedCatalog>, now: u64) -> Option<Catalog> {
    match snapshot {
        Some(s) => if s.is_fresh_at(now) {
            Some(s.catalog)
        } else {
            None
        },
        None => None,
    }
}

/// What a cache holds after a refresh, when it held `before` and the fetch
/// gave `outcome`: the new snapshot in place of the old one, or, where the
/// fetch failed, what it held before.
pub open spec fn refreshed(
    before: Option<CachedCatalog>,
    outcome: Result<CachedCatalog, FetchError>,
) -> Option<CachedCatalog> {
    match outcome {
        Ok(snapshot) => Some(snapshot),
        Err(_) => before,
    }
}

/// The last snapshot that a fetch gave, if any did. It holds one snapshot or
/// none, never a part of one.
#[derive(Debug)]
pub struct CatalogCache {
    current: Option<CachedCatalog>,
}

/// One refresh that is due. It holds the cache, and nothing else can use the
/// cache until the refresh is completed or given up.
#[derive(Debug)]
pub struct PendingRefresh<'a> {
    /// The cache that waits for the snapshot.
    pub cache: &'a mut CatalogCache,
}

/// What is to be done for a caller who asks for the current catalog.
#[derive(Debug)]
pub enum CacheStep<'a> {
    /// The snapshot is fresh: here is its catalog, and nothing is fetched.
    Serve(&'a Catalog),
    /// There is no snapshot or it is stale: one fetch is due.
    Refresh(PendingRefresh<'a>),
}

impl CatalogCache {
    /// The snapshot that the cache holds.
    pub closed spec fn snapshot(&self) -> Option<CachedCatalog> {
        self.current
    }

    /// A cache that holds nothing yet.
    pub fn new() -> (cache: Self)
        ensures
            cache.snapshot() is None,
    {
        CatalogCache { current: None }
    }

    /// The snapshot that the cache holds, fresh or not.
    pub fn stored(&self) -> (r: Option<&CachedCatalog>)
        ensures
            match r {
                Some(snapshot) => self.snapshot() == Some(*snapshot),
                None => self.snapshot() is None,
            },
    {
        self.current.as_ref()
    }

    /// Answers a caller who asks for the current catalog at `now`. Where the
    /// snapshot is fresh its catalog is served: the very one that the cache
    /// holds, with no fetch. Where there is no snapshot, or a stale one, one
    /// refresh is handed out. Either way the cache holds what it held, until
    /// a handed-out refresh is completed.
    pub fn get_current(&mut self, now: u64) -> (step: CacheStep<'_>)
        ensures
            match step {
                CacheStep::Serve(catalog) => served(old(self).snapshot(), now) == Some(*catalog)
                    && final(self).snapshot() == old(self).snapshot(),
                CacheStep::Refresh(pending) => served(old(self).snapshot(), now) is None
                    && pending.cache.snapshot() == old(self).snapshot()
                    && final(pending.cache).snapshot() == final(self).snapshot(),
            },
    {
        let fresh = match &self.current {
            Some(snapshot) => snapshot.is_fresh(now),
            None => false,
        };
        if fresh {
            CacheStep::Serve(&self.current.as_ref().unwrap().catalog)
        } else {
            CacheStep::Refresh(PendingRefresh { cache: self })
        }
    }
}

impl<'a> PendingRefresh<'a> {
    /// Takes what the one fetch gave, and ends the refresh. A snapshot
    /// replaces the one that was held, as a whole, and its catalog is
    /// returned. An error is handed on and the cache stays as it was.
    pub fn complete(self, outcome: Result<CachedCatalog, FetchError>) -> (r: Result<
        &'a Catalog,
        FetchError,
    >)
        ensures
            final(self.cache).snapshot() == refreshed(old(self.cache).snapshot(), outcome),
            match outcome {
                Ok(snapshot) => r matches Ok(catalog) && *catalog == snapshot.catalog,
                Err(e) => r == Err::<&Catalog, FetchError>(e),
            },
    {
        match outcome {
            Ok(snapshot) => {
                self.cache.current = Some(snapshot);
                Ok(&self.cache.current.as_ref().unwrap().catalog)
            },
            Err(e) => Err(e),
        }
    }
}

impl Default for CatalogCache {
    fn default() -> (cache: Self)
        ensures
            cache.snapshot() is None,
    {
        CatalogCache::new()
    }
}

/// A snapshot fetched at `downloaded_at` is served up to 899 seconds later
/// and no longer: from 900 seconds on a fetch is due.
pub proof fn lemma_freshness_boundary(snapshot: CachedCatalog, now: u64)
    ensures
        snapshot.is_fresh_at(now) <==> now < snapshot.downloaded_at + 900,
        now == snapshot.downloaded_at + 899 ==> served(Some(snapshot), now) == Some(
            snapshot.catalog,
        ),
        now >= snapshot.downloaded_at + 900 ==> served(Some(snapshot), now) is None,
{
}

/// After a refresh that succeeded the cache holds the new snapshot and
/// nothing of what it held before: whatever it held, every later read gives
/// the new catalog while the new snapshot is fresh, and asks for a fetch
/// once it is stale.
pub proof fn lemma_refresh_replaces_whole(
    before: Option<CachedCatalog>,
    snapshot: CachedCatalog,
    now: u64,
)
    ensures
        refreshed(before, Ok(snapshot)) == Some(snapshot),
        snapshot.is_fresh_at(now) ==> served(refreshed(before, Ok(snapshot)), now) == Some(
            snapshot.catalog,
        ),
        !snapshot.is_fresh_at(now) ==> served(refreshed(before, Ok(snapshot)), now) is None,
{
}

/// A refresh that failed leaves the cache as it was, the age of its snapshot
/// included: what was stale stays stale, so the next call asks for a fetch
/// again.
pub proof fn lemma_failed_refresh_keeps(before: Option<CachedCatalog>, e: FetchError, now: u64)
    ensures
        refreshed(before, Err(e)) == before,
        served(refreshed(before, Err(e)), now) == served(before, now),
{
}

/// A response that reports success and has no `ETag` header gives
/// `MissingMetadata`, whatever its body holds, and nothing is stored of it.
pub proof fn lemma_missing_etag_stores_nothing(
    before: Option<CachedCatalog>,
    response: FetchResponse,
    document: Option<JsonModel>,
    now: u64,
)
    requires
        is_success(response.status),
        response.etag is None,
    ensures
        concluded(Ok(response), document, now) == Err::<CachedCatalogModel, FetchError>(
            FetchError::MissingMetadata,
        ),
        refreshed(before, Err(FetchError::MissingMetadata)) == before,
{
}

} // verus!

//! The caches of the server: the latest snapshot with the time it was
//! fetched, the series by symbol and timeframe, and the logos by symbol.
//! Times are whole seconds on the server's clock.

use vstd::prelude::*;
use crate::store::KeyedStore;
use crate::timeframe::{refresh_interval_secs, spec_refresh_interval_secs};
use crate::topics::{cache_key, normalize_symbol, spec_cache_key};
use crate::text::ascii_upper;
use crate::types::{CryptoCurrency, HistoricalDataResult};

verus! {

/// Age in seconds above which a snapshot is reported as cached.
pub const SNAPSHOT_FRESH_SECS: u64 = 30;

/// Seconds for which a logo is served from the cache.
pub const LOGO_TTL_SECS: u64 = 86400;

/// Seconds from `since` to `now` on a clock that may have been set back:
/// zero where `now` is earlier.
pub open spec fn spec_age(since: u64, now: u64) -> u64 {
    if now >= since {
        (now - since) as u64
    } else {
        0
    }
}

/// Seconds from `since` to `now`.
pub fn age(since: u64, now: u64) -> (secs: u64)
    ensures
        secs == spec_age(since, now),
{
    if now >= since {
        now - since
    } else {
        0
    }
}

/// Whether a logo that was stored at `inserted_at` is served at `now`: the
/// time of storage does not lie after `now`, and less than 24 hours have
/// passed since.
pub open spec fn spec_logo_is_served(inserted_at: u64, now: u64) -> bool {
    inserted_at <= now && now - inserted_at < LOGO_TTL_SECS
}

/// Whether a logo that was stored at `inserted_at` is served at `now`.
pub fn logo_is_served(inserted_at: u64, now: u64) -> (served: bool)
    ensures
        served == spec_logo_is_served(inserted_at, now),
{
    inserted_at <= now && now - inserted_at < LOGO_TTL_SECS
}

/// The most recent snapshot, and when the upstream was last polled with
/// success.
#[derive(Debug)]
pub struct LatestCache {
    pub snapshot: Option<Vec<CryptoCurrency>>,
    pub last_fetch: u64,
}

impl LatestCache {
    /// An empty cache, created at `now`.
    pub fn new(now: u64) -> (cache: Self)
        ensures
            cache.snapshot is None,
            cache.last_fetch == now,
    {
        LatestCache { snapshot: None, last_fetch: now }
    }

    /// Replaces the snapshot by one that was fetched at `now`.
    pub fn store(&mut self, snapshot: Vec<CryptoCurrency>, now: u64)
        ensures
            final(self).snapshot == Some(snapshot),
            final(self).last_fetch == now,
    {
        self.snapshot = Some(snapshot);
        self.last_fetch = now;
    }

    /// Whether a snapshot is held that is reported as cached at `now`: one
    /// that is older than 30 seconds.
    pub open spec fn spec_is_cached(&self, now: u64) -> bool {
        self.snapshot is Some && spec_age(self.last_fetch, now) > SNAPSHOT_FRESH_SECS
    }

    /// Whether a snapshot is held that is reported as cached at `now`.
    pub fn is_cached(&self, now: u64) -> (cached: bool)
        ensures
            cached == self.spec_is_cached(now),
    {
        self.snapshot.is_some() && age(self.last_fetch, now) > SNAPSHOT_FRESH_SECS
    }
}

/// A series with the time at which it entered the cache.
#[derive(Debug)]
pub struct TimedSeries {
    pub series: HistoricalDataResult,
    pub inserted_at: u64,
}

/// The series that the server has fetched, under the key of their symbol
/// and timeframe. Nothing is ever evicted.
#[derive(Debug)]
pub struct HistoryCache {
    pub entries: KeyedStore<TimedSeries>,
}

impl HistoryCache {
    /// No key is held twice.
    pub open spec fn well_formed(&self) -> bool {
        self.entries.well_formed()
    }

    /// Whether the cache is well-formed.
    pub fn is_well_formed(&self) -> (ok: bool)
        ensures
            ok == self.well_formed(),
    {
        self.entries.is_well_formed()
    }

    /// Whether the cache holds a series for the key that at `now` is
    /// younger than the refresh interval of `timeframe`.
    pub open spec fn spec_has_fresh(
        &self,
        symbol: Seq<char>,
        timeframe: Seq<char>,
        now: u64,
    ) -> bool {
        let key = spec_cache_key(symbol, timeframe);
        self.entries@.contains_key(key) && spec_age(self.entries@[key].inserted_at, now)
            < spec_refresh_interval_secs(timeframe)
    }

    /// An empty cache.
    pub fn new() -> (cache: Self)
        ensures
            cache.well_formed(),
            cache.entries@ == Map::<Seq<char>, TimedSeries>::empty(),
    {
        HistoryCache { entries: KeyedStore::new() }
    }

    /// Stores `series`, fetched at `now`, for `symbol` over `timeframe`, in
    /// place of what was stored for them.
    pub fn insert(&mut self, symbol: &str, timeframe: &str, series: HistoricalDataResult, now: u64)
        requires
            old(self).well_formed(),
        ensures
            final(self).well_formed(),
            final(self).entries@ == old(self).entries@.insert(
                spec_cache_key(symbol@, timeframe@),
                TimedSeries { series, inserted_at: now },
            ),
    {
        self.entries.insert(cache_key(symbol, timeframe), TimedSeries { series, inserted_at: now });
    }

    /// The series stored for `symbol` over `timeframe`, with its time.
    pub fn get(&self, symbol: &str, timeframe: &str) -> (found: Option<&TimedSeries>)
        requires
            self.well_formed(),
        ensures
            match found {
                Some(entry) => self.entries@.contains_key(spec_cache_key(symbol@, timeframe@))
                    && *entry == self.entries@[spec_cache_key(symbol@, timeframe@)],
                None => !self.entries@.contains_key(spec_cache_key(symbol@, timeframe@)),
            },
    {
        let key = cache_key(symbol, timeframe);
        self.entries.get(key.as_str())
    }

    /// The series stored for `symbol` over `timeframe`, if it is fresh at
    /// `now`.
    pub fn get_fresh(&self, symbol: &str, timeframe: &str, now: u64) -> (found: Option<
        &HistoricalDataResult,
    >)
        requires
            self.well_formed(),
        ensures
            match found {
                Some(series) => self.spec_has_fresh(symbol@, timeframe@, now) && *series
                    == self.entries@[spec_cache_key(symbol@, timeframe@)].series,
                None => !self.spec_has_fresh(symbol@, timeframe@, now),
            },
    {
        match self.get(symbol, timeframe) {
            Some(entry) => if age(entry.inserted_at, now) < refresh_interval_secs(timeframe) {
                Some(&entry.series)
            } else {
                None
            },
            None => None,
        }
    }
}

/// A logo with the time at which it entered the cache.
#[derive(Debug)]
pub struct TimedImage {
    pub bytes: Vec<u8>,
    pub inserted_at: u64,
}

/// The logos that the server has fetched, by normalised symbol. A logo is
/// served for 24 hours; an older one is evicted when it is asked for.
#[derive(Debug)]
pub struct LogoCache {
    pub entries: KeyedStore<TimedImage>,
}

impl LogoCache {
    /// No symbol is held twice.
    pub open spec fn well_formed(&self) -> bool {
        self.entries.well_formed()
    }

    /// Whether the cache is well-formed.
    pub fn is_well_formed(&self) -> (ok: bool)
        ensures
            ok == self.well_formed(),
    {
        self.entries.is_well_formed()
    }

    /// Whether the cache holds a logo for `symbol` that is served at `now`:
    /// one that was stored less than 24 hours ago. A logo with a time of
    /// storage that lies after `now`, as a clock that was set back leaves
    /// it, counts as expired.
    pub open spec fn spec_has_fresh(&self, symbol: Seq<char>, now: u64) -> bool {
        let key = ascii_upper(symbol);
        self.entries@.contains_key(key) && spec_logo_is_served(
            self.entries@[key].inserted_at,
            now,
        )
    }

    /// An empty cache.
    pub fn new() -> (cache: Self)
        ensures
            cache.well_formed(),
            cache.entries@ == Map::<Seq<char>, TimedImage>::empty(),
    {
        LogoCache { entries: KeyedStore::new() }
    }

    /// Stores the logo of `symbol`, fetched at `now`.
    pub fn insert(&mut self, symbol: &str, bytes: Vec<u8>, now: u64)
        requires
            old(self).well_formed(),
        ensures
            final(self).well_formed(),
            final(self).entries@ == old(self).entries@.insert(
                ascii_upper(symbol@),
                TimedImage { bytes, inserted_at: now },
            ),
    {
        self.entries.insert(normalize_symbol(symbol), TimedImage { bytes, inserted_at: now });
    }

    /// The logo of `symbol`, if one is held that is served at `now`. One
    /// that is held but too old is evicted.
    pub fn lookup(&mut self, symbol: &str, now: u64) -> (found: Option<Vec<u8>>)
        requires
            old(self).well_formed(),
        ensures
            final(self).well_formed(),
            match found {
                Some(bytes) => {
                    &&& old(self).spec_has_fresh(symbol@, now)
                    &&& bytes@ == old(self).entries@[ascii_upper(symbol@)].bytes@
                    &&& final(self).entries@ == old(self).entries@
                },
                None => {
                    &&& !old(self).spec_has_fresh(symbol@, now)
                    &&& final(self).entries@ == old(self).entries@.remove(ascii_upper(symbol@))
                },
            },
    {
        let key = normalize_symbol(symbol);
        let fresh = match self.entries.get(key.as_str()) {
            Some(entry) => if logo_is_served(entry.inserted_at, now) {
                Some(entry.bytes.clone())
            } else {
                None
            },
            None => None,
        };
        if fresh.is_none() {
            self.entries.remove(key.as_str());
        }
        fresh
    }
}

} // verus!

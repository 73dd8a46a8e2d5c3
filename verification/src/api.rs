//! The records that the server exchanges with the upstream and with the
//! callers of its HTTP interface, and the state that it keeps between
//! requests.

use vstd::prelude::*;
use crate::cache::{HistoryCache, LatestCache, LogoCache};
use crate::store::KeyedStore;
use crate::types::CryptoCurrency;

verus! {

/// Envelope of the upstream's listings.
#[derive(Debug)]
pub struct CoinMarketCapResponse {
    pub data: Vec<CryptoCurrency>,
}

/// Answer of the server to a request for the latest prices.
#[derive(Debug)]
pub struct ApiResponse {
    pub data: Vec<CryptoCurrency>,
    pub last_updated: String,
    pub cached: bool,
}

/// What a consumer's client hands its embedder for the latest prices.
#[derive(Debug)]
pub struct CryptoClientResult {
    pub success: bool,
    pub data: Option<Vec<CryptoCurrency>>,
    pub error: Option<String>,
    pub last_updated: Option<String>,
    pub cached: bool,
}

/// Query of a request for a series.
#[derive(Debug)]
pub struct HistoricalQuery {
    pub timeframe: String,
}

/// One instrument of the upstream's catalogue.
#[derive(Debug)]
pub struct CmcCurrency {
    pub id: u32,
    pub name: String,
    pub symbol: String,
    pub slug: String,
}

/// Status block of an upstream answer.
#[derive(Debug)]
pub struct CmcStatus {
    pub timestamp: String,
    pub error_code: u32,
    pub error_message: Option<String>,
    pub elapsed: u32,
    pub credit_count: u32,
}

/// Answer of the upstream to a request for its catalogue.
#[derive(Debug)]
pub struct CmcMappingResponse {
    pub status: CmcStatus,
    pub data: Vec<CmcCurrency>,
}

/// What the server keeps between requests.
#[derive(Debug)]
pub struct AppState {
    pub cache: LatestCache,
    pub api_key: String,
    pub historical_cache: HistoryCache,
    pub update_interval_seconds: u64,
    /// The upstream's identifier of each symbol, by normalised symbol.
    pub cmc_mapping: KeyedStore<u32>,
    pub logo_cache: LogoCache,
}

impl AppState {
    /// Each of the tables is well-formed.
    pub open spec fn well_formed(&self) -> bool {
        &&& self.historical_cache.well_formed()
        &&& self.cmc_mapping.well_formed()
        &&& self.logo_cache.well_formed()
    }

    /// Whether the state is well-formed.
    pub fn is_well_formed(&self) -> (ok: bool)
        ensures
            ok == self.well_formed(),
    {
        self.historical_cache.is_well_formed() && self.cmc_mapping.is_well_formed()
            && self.logo_cache.is_well_formed()
    }

    /// The state of a server that starts at `now` and has fetched nothing
    /// yet.
    pub fn new(api_key: String, update_interval_seconds: u64, now: u64) -> (state: Self)
        ensures
            state.well_formed(),
            state.cache.snapshot is None,
            state.cache.last_fetch == now,
            state.api_key == api_key,
            state.update_interval_seconds == update_interval_seconds,
            state.historical_cache.entries@.dom() == Set::<Seq<char>>::empty(),
            state.cmc_mapping@ == Map::<Seq<char>, u32>::empty(),
            state.logo_cache.entries@.dom() == Set::<Seq<char>>::empty(),
    {
        let state = AppState {
            cache: LatestCache::new(now),
            api_key,
            historical_cache: HistoryCache::new(),
            update_interval_seconds,
            cmc_mapping: KeyedStore::new(),
            logo_cache: LogoCache::new(),
        };
        assert(state.historical_cache.entries@.dom() =~= Set::<Seq<char>>::empty());
        assert(state.logo_cache.entries@.dom() =~= Set::<Seq<char>>::empty());
        state
    }
}

} // verus!

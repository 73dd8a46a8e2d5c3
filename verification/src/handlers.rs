//! What the server answers on its HTTP interface, decided from its caches.
//! The caller reads the request, fetches from the upstream where a decision
//! asks for it, and writes the response.

use vstd::prelude::*;
use vstd::string::*;
use crate::api::{ApiResponse, AppState};
use crate::cache::{spec_age, HistoryCache, LatestCache, LogoCache, SNAPSHOT_FRESH_SECS};
use crate::history::{is_success, spec_is_success};
use crate::text::{ascii_upper, decimal, push_decimal, to_ascii_upper};
use crate::topics::spec_cache_key;
use crate::types::{clone_snapshot, snapshot_view, HistoricalDataResult};

verus! {

/// Media type of a logo.
pub const LOGO_CONTENT_TYPE: &'static str = "image/png";

/// Caching directive sent with a logo: any cache may keep it for a day.
pub const LOGO_CACHE_CONTROL: &'static str = "public, max-age=86400";

/// The answer to a request for the latest prices at `now`: the cached
/// snapshot with the text of its time, reported as cached exactly when it is
/// older than 30 seconds; without snapshot, an empty answer that was never
/// updated.
pub fn get_prices(cache: &LatestCache, now: u64, last_updated: String) -> (response: ApiResponse)
    ensures
        match cache.snapshot {
            Some(held) => {
                &&& snapshot_view(response.data@) == snapshot_view(held@)
                &&& response.last_updated == last_updated
                &&& response.cached == (spec_age(cache.last_fetch, now) > SNAPSHOT_FRESH_SECS)
            },
            None => {
                &&& response.data@.len() == 0
                &&& response.last_updated@ == "Never"@
                &&& !response.cached
            },
        },
{
    match &cache.snapshot {
        Some(held) => ApiResponse {
            data: clone_snapshot(held),
            last_updated,
            cached: cache.is_cached(now),
        },
        None => ApiResponse {
            data: Vec::new(),
            last_updated: String::from_str("Never"),
            cached: false,
        },
    }
}

/// Answer to a health check.
#[derive(Debug)]
pub struct HealthStatus {
    pub status: String,
    pub timestamp: u64,
}

/// The answer to a health check at `now`.
pub fn health_check(now: u64) -> (health: HealthStatus)
    ensures
        health.status@ == "ok"@,
        health.timestamp == now,
{
    HealthStatus { status: String::from_str("ok"), timestamp: now }
}

/// The series of `symbol` over `timeframe` was fetched at `now` for a
/// caller of the HTTP interface. A successful series enters the cache and
/// is to be published, which the result tells; a failed one is only
/// answered.
pub fn get_historical_data(
    cache: &mut HistoryCache,
    symbol: &str,
    timeframe: &str,
    series: &HistoricalDataResult,
    now: u64,
) -> (publish: bool)
    requires
        old(cache).well_formed(),
    ensures
        final(cache).well_formed(),
        publish == series.success,
        if series.success {
            let key = spec_cache_key(symbol@, timeframe@);
            &&& final(cache).entries@.contains_key(key)
            &&& final(cache).entries@[key].series@ == series@
            &&& final(cache).entries@[key].inserted_at == now
            &&& final(cache).entries@ == old(cache).entries@.insert(
                key,
                final(cache).entries@[key],
            )
        } else {
            *final(cache) == *old(cache)
        },
{
    if series.success {
        cache.insert(symbol, timeframe, series.clone(), now);
        true
    } else {
        false
    }
}

/// Address of the logo of the instrument `id`.
pub open spec fn spec_logo_url(id: u32) -> Seq<char> {
    "https://s2.coinmarketcap.com/static/img/coins/64x64/"@ + decimal(id as nat) + ".png"@
}

/// Address of the logo of the instrument `id`.
pub fn logo_url(id: u32) -> (url: String)
    ensures
        url@ == spec_logo_url(id),
{
    let mut url = String::from_str("https://s2.coinmarketcap.com/static/img/coins/64x64/");
    push_decimal(&mut url, id as u64);
    url.append(".png");
    url
}

/// What to do about a request for a logo.
#[derive(Debug)]
pub enum LogoLookup {
    /// Serve the image from the cache.
    Cached { image: Vec<u8> },
    /// The symbol is not in the catalogue: answer that it was not found.
    Unknown { message: String },
    /// Fetch the image at `url`, then report with `logo_fetched`.
    Fetch { symbol: String, url: String },
}

/// Decides a request for the logo of `symbol` at `now`: from the cache where
/// the cache holds one that is younger than 24 hours; else by the address
/// of the instrument that the catalogue has for the normalised symbol.
pub fn get_crypto_logo(state: &mut AppState, symbol: &str, now: u64) -> (lookup: LogoLookup)
    requires
        old(state).well_formed(),
    ensures
        final(state).well_formed(),
        final(state).cache == old(state).cache,
        final(state).api_key == old(state).api_key,
        final(state).historical_cache == old(state).historical_cache,
        final(state).update_interval_seconds == old(state).update_interval_seconds,
        final(state).cmc_mapping == old(state).cmc_mapping,
        if old(state).logo_cache.spec_has_fresh(symbol@, now) {
            &&& lookup matches LogoLookup::Cached { image }
            &&& image@ == old(state).logo_cache.entries@[ascii_upper(symbol@)].bytes@
            &&& final(state).logo_cache.entries@ == old(state).logo_cache.entries@
        } else {
            &&& final(state).logo_cache.entries@ == old(state).logo_cache.entries@.remove(
                ascii_upper(symbol@),
            )
            &&& if old(state).cmc_mapping@.contains_key(ascii_upper(symbol@)) {
                &&& lookup matches LogoLookup::Fetch { symbol: normal, url }
                &&& normal@ == ascii_upper(symbol@)
                &&& url@ == spec_logo_url(old(state).cmc_mapping@[ascii_upper(symbol@)])
            } else {
                &&& lookup matches LogoLookup::Unknown { message }
                &&& message@ == "No logo mapping found for symbol: "@ + ascii_upper(symbol@)
            }
        },
{
    match state.logo_cache.lookup(symbol, now) {
        Some(image) => {
            return LogoLookup::Cached { image };
        },
        None => {},
    }
    let normal = to_ascii_upper(symbol);
    match state.cmc_mapping.get(normal.as_str()) {
        Some(id) => {
            let url = logo_url(*id);
            LogoLookup::Fetch { symbol: normal, url }
        },
        None => {
            let mut message = String::from_str("No logo mapping found for symbol: ");
            message.append(normal.as_str());
            LogoLookup::Unknown { message }
        },
    }
}

/// What came of fetching a logo.
#[derive(Debug)]
pub enum LogoReply {
    /// The request could not be sent.
    Failed,
    /// The upstream answered; `body` is `None` where it could not be read.
    Answered { status: u16, body: Option<Vec<u8>> },
}

/// What the server answers to a request for a logo.
#[derive(Debug)]
pub enum LogoResponse {
    /// The image, with the media type and the caching directive of a logo.
    Image { image: Vec<u8> },
    /// Status 404 with a message.
    NotFound { message: String },
    /// Status 500 with a message.
    ServerError { message: String },
}

/// The logo of `symbol` was fetched at `now` with `reply`. An image that
/// arrived enters the cache and is served; anything else is reported and
/// leaves the cache as it is.
pub fn logo_fetched(cache: &mut LogoCache, symbol: &str, reply: LogoReply, now: u64) -> (response:
    LogoResponse)
    requires
        old(cache).well_formed(),
    ensures
        final(cache).well_formed(),
        match reply {
            LogoReply::Failed => {
                &&& response matches LogoResponse::ServerError { message }
                &&& message@ == "Failed to fetch logo"@
                &&& *final(cache) == *old(cache)
            },
            LogoReply::Answered { status, body } => if !spec_is_success(status) {
                &&& response matches LogoResponse::NotFound { message }
                &&& message@ == "Logo not found"@
                &&& *final(cache) == *old(cache)
            } else {
                match body {
                    Some(bytes) => {
                        &&& response matches LogoResponse::Image { image }
                        &&& image@ == bytes@
                        &&& final(cache).entries@.contains_key(ascii_upper(symbol@))
                        &&& final(cache).entries@[ascii_upper(symbol@)].bytes@ == bytes@
                        &&& final(cache).entries@[ascii_upper(symbol@)].inserted_at == now
                        &&& final(cache).entries@ == old(cache).entries@.insert(
                            ascii_upper(symbol@),
                            final(cache).entries@[ascii_upper(symbol@)],
                        )
                    },
                    None => {
                        &&& response matches LogoResponse::ServerError { message }
                        &&& message@ == "Failed to read image data"@
                        &&& *final(cache) == *old(cache)
                    },
                }
            },
        },
{
    match reply {
        LogoReply::Failed => LogoResponse::ServerError {
            message: String::from_str("Failed to fetch logo"),
        },
        LogoReply::Answered { status, body } => {
            if !is_success(status) {
                LogoResponse::NotFound { message: String::from_str("Logo not found") }
            } else {
                match body {
                    Some(bytes) => {
                        cache.insert(symbol, bytes.clone(), now);
                        LogoResponse::Image { image: bytes }
                    },
                    None => LogoResponse::ServerError {
                        message: String::from_str("Failed to read image data"),
                    },
                }
            }
        },
    }
}

} // verus!

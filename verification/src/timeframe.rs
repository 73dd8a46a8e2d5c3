//! What a timeframe string stands for: the window and sampling interval asked
//! of the upstream, and the cadence at which its retained series go stale.
//!
//! Timeframes are opaque strings; an unknown one falls back to a default row.

use vstd::prelude::*;
use crate::text::str_eq;

verus! {

/// Days of history requested for a timeframe.
pub open spec fn spec_days_for_timeframe(timeframe: Seq<char>) -> u32 {
    if timeframe == "1h"@ {
        1
    } else if timeframe == "24h"@ || timeframe == "1d"@ {
        1
    } else if timeframe == "7d"@ {
        7
    } else if timeframe == "30d"@ {
        30
    } else if timeframe == "90d"@ {
        90
    } else if timeframe == "365d"@ || timeframe == "1y"@ {
        365
    } else if timeframe == "all"@ {
        365
    } else {
        30
    }
}

/// Sampling interval requested for a timeframe.
pub open spec fn spec_interval_for_timeframe(timeframe: Seq<char>) -> Seq<char> {
    if timeframe == "1h"@ {
        "5m"@
    } else if timeframe == "24h"@ || timeframe == "1d"@ {
        "1h"@
    } else if timeframe == "7d"@ {
        "2h"@
    } else if timeframe == "30d"@ {
        "6h"@
    } else if timeframe == "90d"@ {
        "1d"@
    } else if timeframe == "365d"@ || timeframe == "1y"@ {
        "1d"@
    } else if timeframe == "all"@ {
        "1d"@
    } else {
        "1h"@
    }
}

/// Seconds for which a series of the given timeframe counts as fresh; the
/// retained copy on the bus is cleared at this cadence.
pub open spec fn spec_refresh_interval_secs(timeframe: Seq<char>) -> u64 {
    if timeframe == "1h"@ {
        300
    } else if timeframe == "24h"@ {
        3600
    } else if timeframe == "7d"@ {
        7200
    } else if timeframe == "30d"@ {
        21600
    } else if timeframe == "90d"@ {
        86400
    } else if timeframe == "365d"@ {
        86400
    } else {
        3600
    }
}

/// Days of history to request for `timeframe`.
pub fn days_for_timeframe(timeframe: &str) -> (days: u32)
    ensures
        days == spec_days_for_timeframe(timeframe@),
        1 <= days <= 365,
{
    if str_eq(timeframe, "1h") {
        1
    } else if str_eq(timeframe, "24h") || str_eq(timeframe, "1d") {
        1
    } else if str_eq(timeframe, "7d") {
        7
    } else if str_eq(timeframe, "30d") {
        30
    } else if str_eq(timeframe, "90d") {
        90
    } else if str_eq(timeframe, "365d") || str_eq(timeframe, "1y") {
        365
    } else if str_eq(timeframe, "all") {
        365
    } else {
        30
    }
}

/// Sampling interval to request for `timeframe`.
pub fn get_interval_for_timeframe(timeframe: &str) -> (interval: &'static str)
    ensures
        interval@ == spec_interval_for_timeframe(timeframe@),
{
    if str_eq(timeframe, "1h") {
        "5m"
    } else if str_eq(timeframe, "24h") || str_eq(timeframe, "1d") {
        "1h"
    } else if str_eq(timeframe, "7d") {
        "2h"
    } else if str_eq(timeframe, "30d") {
        "6h"
    } else if str_eq(timeframe, "90d") {
        "1d"
    } else if str_eq(timeframe, "365d") || str_eq(timeframe, "1y") {
        "1d"
    } else if str_eq(timeframe, "all") {
        "1d"
    } else {
        "1h"
    }
}

/// Seconds for which a series of `timeframe` counts as fresh.
pub fn refresh_interval_secs(timeframe: &str) -> (secs: u64)
    ensures
        secs == spec_refresh_interval_secs(timeframe@),
        300 <= secs <= 86400,
{
    if str_eq(timeframe, "1h") {
        300
    } else if str_eq(timeframe, "24h") {
        3600
    } else if str_eq(timeframe, "7d") {
        7200
    } else if str_eq(timeframe, "30d") {
        21600
    } else if str_eq(timeframe, "90d") {
        86400
    } else if str_eq(timeframe, "365d") {
        86400
    } else {
        3600
    }
}

} // verus!

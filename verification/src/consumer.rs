//! What a consumer's client answers its embedder: the latest prices, and a
//! series on demand. Both may have to wait for the bus; the caller sleeps
//! and publishes as the steps returned here say, and asks again.

use vstd::prelude::*;
use vstd::string::*;
use crate::api::CryptoClientResult;
use crate::client::MQTTClient;
use crate::publisher::{Publication, PublicationView, QoS};
use crate::text::ascii_upper;
use crate::topics::{request_payload, spec_cache_key, spec_historical_topic, REQUEST_TOPIC};
use crate::types::{
    clone_snapshot, snapshot_view, HistoricalDataResult, HistoricalDataResultView,
};

verus! {

/// Milliseconds that a caller waits at most for a client that was just
/// made to connect or to receive the retained snapshot.
pub const CONNECT_WINDOW_MS: u64 = 2000;

/// Milliseconds that a caller waits at most for the answer to a request.
pub const HISTORY_WINDOW_MS: u64 = 2000;

/// Milliseconds between two looks at the client while waiting.
pub const POLL_INTERVAL_MS: u64 = 100;

/// One step of a wait.
#[derive(Clone, Copy, Debug, PartialEq, Eq, Structural)]
pub enum WaitStep {
    /// What was waited for is there.
    Ready,
    /// Sleep for `millis` milliseconds, then ask again.
    Sleep { millis: u64 },
    /// The window has passed.
    TimedOut,
}

/// The pause before the next look, `waited_ms` into a window of
/// `window_ms`: the poll interval, or what is left of the window.
pub open spec fn spec_pause(window_ms: u64, waited_ms: u64) -> u64 {
    if window_ms - waited_ms < POLL_INTERVAL_MS {
        (window_ms - waited_ms) as u64
    } else {
        POLL_INTERVAL_MS
    }
}

/// The step of a caller that has waited `waited_ms` for a new client: ready
/// once the client is connected or holds a snapshot, timed out once the
/// window has passed.
pub open spec fn spec_startup_wait(client: MQTTClient, waited_ms: u64) -> WaitStep {
    if client.is_connected || client.latest_prices is Some {
        WaitStep::Ready
    } else if waited_ms >= CONNECT_WINDOW_MS {
        WaitStep::TimedOut
    } else {
        WaitStep::Sleep { millis: spec_pause(CONNECT_WINDOW_MS, waited_ms) }
    }
}

/// The step of a caller that has waited `waited_ms` for a new client.
pub fn startup_wait(client: &MQTTClient, waited_ms: u64) -> (step: WaitStep)
    ensures
        step == spec_startup_wait(*client, waited_ms),
{
    if client.is_connected || client.latest_prices.is_some() {
        WaitStep::Ready
    } else if waited_ms >= CONNECT_WINDOW_MS {
        WaitStep::TimedOut
    } else if CONNECT_WINDOW_MS - waited_ms < POLL_INTERVAL_MS {
        WaitStep::Sleep { millis: CONNECT_WINDOW_MS - waited_ms }
    } else {
        WaitStep::Sleep { millis: POLL_INTERVAL_MS }
    }
}

/// The result that reports `message` in place of prices.
pub fn return_mqtt_error(message: &str) -> (result: CryptoClientResult)
    ensures
        !result.success,
        result.data is None,
        result.error matches Some(text) && text@ == message@,
        result.last_updated is None,
        !result.cached,
{
    CryptoClientResult {
        success: false,
        data: None,
        error: Some(message.to_owned()),
        last_updated: None,
        cached: false,
    }
}

/// The latest prices as the embedder gets them: the snapshot that the
/// client holds, stamped with `now_text`; an error where there is no client
/// or the client holds no snapshot.
pub fn get_crypto_data(slot: &Option<MQTTClient>, now_text: String) -> (result: CryptoClientResult)
    ensures
        match *slot {
            Some(MQTTClient { latest_prices: Some(held), .. }) => {
                &&& result.success
                &&& result.data matches Some(copy) && snapshot_view(copy@) == snapshot_view(held@)
                &&& result.error is None
                &&& result.last_updated == Some(now_text)
                &&& result.cached
            },
            _ => {
                &&& !result.success
                &&& result.data is None
                &&& result.error matches Some(text) && text@
                    == "MQTT connection failed or no data available"@
                &&& result.last_updated is None
                &&& !result.cached
            },
        },
{
    match slot {
        Some(client) => match &client.latest_prices {
            Some(held) => {
                return CryptoClientResult {
                    success: true,
                    data: Some(clone_snapshot(held)),
                    error: None,
                    last_updated: Some(now_text),
                    cached: true,
                };
            },
            None => {},
        },
        None => {},
    }
    return_mqtt_error("MQTT connection failed or no data available")
}

/// The series that reports an argument which the embedder passed and which
/// is no text.
pub fn invalid_argument(message: &str) -> (series: HistoricalDataResult)
    ensures
        series@ == (HistoricalDataResultView {
            success: false,
            data: Seq::empty(),
            error: Some(message@),
            symbol: None,
            timeframe: None,
        }),
        series@.well_formed(),
{
    HistoricalDataResult {
        success: false,
        data: Vec::new(),
        error: Some(message.to_owned()),
        symbol: None,
        timeframe: None,
    }
}

/// One step of getting a series.
#[derive(Debug)]
pub enum HistoryStep {
    /// The client holds the series.
    Found { series: HistoricalDataResult },
    /// Publish the request, then ask again.
    Request { publication: Publication },
    /// Sleep for `millis` milliseconds, then ask again.
    Sleep { millis: u64 },
    /// The answer did not come within the window.
    NotAvailable { series: HistoricalDataResult },
}

/// The request for the series of `symbol` over `timeframe`: delivered at
/// least once, not retained.
pub open spec fn spec_history_request(symbol: Seq<char>, timeframe: Seq<char>) -> PublicationView {
    PublicationView {
        topic: REQUEST_TOPIC@,
        qos: QoS::AtLeastOnce,
        retain: false,
        payload: spec_cache_key(symbol, timeframe),
    }
}

/// The series that reports that no answer came.
pub open spec fn spec_not_available(symbol: Seq<char>, timeframe: Seq<char>) -> HistoricalDataResultView {
    HistoricalDataResultView {
        success: false,
        data: Seq::empty(),
        error: Some("not available after request"@),
        symbol: Some(ascii_upper(symbol)),
        timeframe: Some(timeframe),
    }
}

/// One step of getting the series of `symbol` over `timeframe` for the
/// embedder. The series is handed out as soon as the client holds it.
/// Until then the request is published, once; then the client is looked at
/// again and again until `HISTORY_WINDOW_MS` have passed since the request,
/// of which `waited_ms` tells how many have; then the series is reported as
/// not available.
pub fn get_historical_data(
    client: &MQTTClient,
    symbol: &str,
    timeframe: &str,
    requested: bool,
    waited_ms: u64,
) -> (step: HistoryStep)
    requires
        client.well_formed(),
    ensures
        if client.historical_data@.contains_key(spec_historical_topic(symbol@, timeframe@)) {
            step matches HistoryStep::Found { series } && series@
                == client.historical_data@[spec_historical_topic(symbol@, timeframe@)]@
        } else if !requested {
            step matches HistoryStep::Request { publication } && publication@
                == spec_history_request(symbol@, timeframe@)
        } else if waited_ms < HISTORY_WINDOW_MS {
            step matches HistoryStep::Sleep { millis } && millis == spec_pause(
                HISTORY_WINDOW_MS,
                waited_ms,
            )
        } else {
            step matches HistoryStep::NotAvailable { series } && series@ == spec_not_available(
                symbol@,
                timeframe@,
            )
        },
{
    match client.get_historical_data(symbol, timeframe) {
        Some(series) => {
            return HistoryStep::Found { series };
        },
        None => {},
    }
    if !requested {
        let payload = request_payload(symbol, timeframe);
        HistoryStep::Request { publication: client.publish_message(REQUEST_TOPIC, payload.as_str()) }
    } else if waited_ms < HISTORY_WINDOW_MS {
        if HISTORY_WINDOW_MS - waited_ms < POLL_INTERVAL_MS {
            HistoryStep::Sleep { millis: HISTORY_WINDOW_MS - waited_ms }
        } else {
            HistoryStep::Sleep { millis: POLL_INTERVAL_MS }
        }
    } else {
        HistoryStep::NotAvailable {
            series: HistoricalDataResult::failure(symbol, timeframe, "not available after request"),
        }
    }
}

} // verus!

//! Fetching a historical series from the upstream: two requests in order,
//! the first to resolve a symbol to the upstream's identifier, the second to
//! read the quotes of a time window. The caller sends the requests; this
//! module says what to ask and what each answer means.
//!
//! Whatever the upstream answers, the series that a fetch ends with
//! satisfies the invariant of a series: a quote without timestamp or price
//! is skipped, and so is one that is not later than the last point kept.

use vstd::prelude::*;
use vstd::string::*;
use crate::clock::{
    get_current_time, get_start_time, parse_rfc3339_seconds, rfc3339_epoch_seconds,
    spec_current_time, spec_start_time,
};
use crate::json::{
    error_text, json_document, json_error_text, json_items, json_member, json_member2, json_real,
    json_text, json_unsigned, parse_document, value_items, value_member, value_member2,
    value_real, value_text, value_unsigned,
};
use crate::text::{ascii_upper, decimal, push_decimal, to_ascii_upper};
use crate::timeframe::{
    days_for_timeframe, get_interval_for_timeframe, spec_days_for_timeframe,
    spec_interval_for_timeframe,
};
use crate::types::{
    increasing_points, keep_increasing, lemma_keep_increasing, lemma_keep_increasing_keeps_all,
    strictly_increasing, HistoricalDataPoint, HistoricalDataResult, HistoricalDataResultView,
};

verus! {

/// What the upstream answered to one request, as the caller saw it.
#[derive(Debug)]
pub enum HttpReply {
    /// The request could not be sent, or its answer could not be read.
    Failed { detail: String },
    /// The upstream answered with a status line and a body.
    Answered { status: u16, reason: String, body: String },
}

/// Whether an HTTP status is in the success class.
pub open spec fn spec_is_success(status: u16) -> bool {
    200 <= status <= 299
}

/// Whether an HTTP status is in the success class.
pub fn is_success(status: u16) -> (ok: bool)
    ensures
        ok == spec_is_success(status),
{
    200 <= status && status <= 299
}

/// What is asked of the upstream for one series.
#[derive(Debug)]
pub struct HistoryPlan {
    /// The symbol, normalised.
    pub symbol: String,
    /// The timeframe, as the client wrote it.
    pub timeframe: String,
    /// Length of the window, in days.
    pub days: u32,
    /// Sampling interval.
    pub interval: String,
}

impl HistoryPlan {
    /// The plan is the one derived from the client's `symbol` and `timeframe`.
    pub open spec fn is_for(&self, symbol: Seq<char>, timeframe: Seq<char>) -> bool {
        &&& self.symbol@ == ascii_upper(symbol)
        &&& self.timeframe@ == timeframe
        &&& self.days == spec_days_for_timeframe(timeframe)
        &&& self.interval@ == spec_interval_for_timeframe(timeframe)
    }
}

/// Derives the plan for `symbol` and `timeframe`.
pub fn plan_history(symbol: &str, timeframe: &str) -> (plan: HistoryPlan)
    ensures
        plan.is_for(symbol@, timeframe@),
{
    HistoryPlan {
        symbol: to_ascii_upper(symbol),
        timeframe: timeframe.to_owned(),
        days: days_for_timeframe(timeframe),
        interval: get_interval_for_timeframe(timeframe).to_owned(),
    }
}

/// Address of the request that resolves `symbol` to an identifier.
pub open spec fn spec_quotes_url(symbol: Seq<char>) -> Seq<char> {
    "https://pro-api.coinmarketcap.com/v1/cryptocurrency/quotes/latest?symbol="@ + symbol
        + "&convert=USD"@
}

/// Address of the request that resolves `symbol` to an identifier.
pub fn quotes_url(symbol: &str) -> (url: String)
    ensures
        url@ == spec_quotes_url(symbol@),
{
    let mut url = String::from_str(
        "https://pro-api.coinmarketcap.com/v1/cryptocurrency/quotes/latest?symbol=",
    );
    url.append(symbol);
    url.append("&convert=USD");
    url
}

/// Address of the request for the quotes of `id` between `start` and `end`.
pub open spec fn spec_historical_url(
    id: u64,
    start: Seq<char>,
    end: Seq<char>,
    interval: Seq<char>,
) -> Seq<char> {
    "https://pro-api.coinmarketcap.com/v1/cryptocurrency/quotes/historical?id="@ + decimal(
        id as nat,
    ) + "&time_start="@ + start + "&time_end="@ + end + "&interval="@ + interval
}

/// Address of the request for the quotes of `id` between `start` and `end`.
pub fn historical_url(id: u64, start: &str, end: &str, interval: &str) -> (url: String)
    ensures
        url@ == spec_historical_url(id, start@, end@, interval@),
{
    let mut url = String::from_str(
        "https://pro-api.coinmarketcap.com/v1/cryptocurrency/quotes/historical?id=",
    );
    push_decimal(&mut url, id);
    url.append("&time_start=");
    url.append(start);
    url.append("&time_end=");
    url.append(end);
    url.append("&interval=");
    url.append(interval);
    url
}

/// Address of the second request of `plan`, for a window that ends at
/// `now_ms`, if both ends of the window can be written.
pub open spec fn spec_history_request(plan: HistoryPlan, id: u64, now_ms: i64) -> Option<
    Seq<char>,
> {
    match (spec_start_time(now_ms, plan.days), spec_current_time(now_ms)) {
        (Some(start), Some(end)) => Some(spec_historical_url(id, start, end, plan.interval@)),
        _ => None,
    }
}

/// Address of the second request of `plan`: the quotes of `id` over the
/// plan's window, which ends at `now_ms` (milliseconds since the epoch).
/// `None` where the calendar cannot write an end of the window.
pub fn history_request(plan: &HistoryPlan, id: u64, now_ms: i64) -> (url: Option<String>)
    ensures
        match url {
            Some(u) => spec_history_request(*plan, id, now_ms) == Some(u@),
            None => spec_history_request(*plan, id, now_ms) is None,
        },
{
    let start = match get_start_time(now_ms, plan.days) {
        Some(s) => s,
        None => {
            return None;
        },
    };
    let end = match get_current_time(now_ms) {
        Some(e) => e,
        None => {
            return None;
        },
    };
    Some(historical_url(id, start.as_str(), end.as_str(), plan.interval.as_str()))
}

/// The second request of `plan`, or the failed series that ends the fetch
/// where the window cannot be written.
pub fn second_request(plan: &HistoryPlan, id: u64, now_ms: i64) -> (request: Result<
    String,
    HistoricalDataResult,
>)
    ensures
        match spec_history_request(*plan, id, now_ms) {
            Some(url) => request matches Ok(u) && u@ == url,
            None => request matches Err(series) && series@ == failed_series(
                *plan,
                "Time window out of range"@,
            ),
        },
{
    match history_request(plan, id, now_ms) {
        Some(url) => Ok(url),
        None => Err(fail(plan, String::from_str("Time window out of range"))),
    }
}

/// What a JSON document of the first answer says of a symbol.
#[derive(Clone, Copy, Debug, PartialEq, Eq, Structural)]
pub enum EntryLookup {
    /// The upstream's identifier of the symbol.
    Found(u64),
    /// The document has no entry for the symbol.
    UnknownSymbol,
    /// The symbol's entry has no identifier.
    MissingId,
}

/// What the body of the first answer says of a symbol.
#[derive(Clone, Copy, Debug, PartialEq, Eq, Structural)]
pub enum IdLookup {
    /// The upstream's identifier of the symbol.
    Found(u64),
    /// The body is not a JSON document.
    NotJson,
    /// The document has no entry for the symbol.
    UnknownSymbol,
    /// The symbol's entry has no identifier.
    MissingId,
}

/// What `doc` says of `symbol`: the number under `data`, `symbol`, `id`.
pub open spec fn spec_lookup_entry(doc: serde_json::Value, symbol: Seq<char>) -> EntryLookup {
    match json_member2(doc, "data"@, symbol) {
        None => EntryLookup::UnknownSymbol,
        Some(entry) => match json_member(entry, "id"@) {
            None => EntryLookup::MissingId,
            Some(id) => match json_unsigned(id) {
                Some(n) => EntryLookup::Found(n),
                None => EntryLookup::MissingId,
            },
        },
    }
}

/// What `body` says of `symbol`: what its document says, where it is one.
pub open spec fn spec_lookup_id(body: Seq<char>, symbol: Seq<char>) -> IdLookup {
    match json_document(body) {
        Err(_) => IdLookup::NotJson,
        Ok(doc) => match spec_lookup_entry(doc, symbol) {
            EntryLookup::Found(n) => IdLookup::Found(n),
            EntryLookup::UnknownSymbol => IdLookup::UnknownSymbol,
            EntryLookup::MissingId => IdLookup::MissingId,
        },
    }
}

/// Reads the identifier of `symbol` out of a document of the first answer.
pub fn lookup_entry(doc: &serde_json::Value, symbol: &str) -> (found: EntryLookup)
    ensures
        found == spec_lookup_entry(*doc, symbol@),
{
    let entry = match value_member2(doc, "data", symbol) {
        Some(e) => e,
        None => {
            return EntryLookup::UnknownSymbol;
        },
    };
    match value_member(entry, "id") {
        None => EntryLookup::MissingId,
        Some(id) => match value_unsigned(id) {
            Some(n) => EntryLookup::Found(n),
            None => EntryLookup::MissingId,
        },
    }
}

/// Reads the identifier of `symbol` out of the body of the first answer.
pub fn lookup_id(body: &str, symbol: &str) -> (found: IdLookup)
    ensures
        found == spec_lookup_id(body@, symbol@),
{
    match parse_document(body) {
        Err(_) => IdLookup::NotJson,
        Ok(doc) => match lookup_entry(&doc, symbol) {
            EntryLookup::Found(n) => IdLookup::Found(n),
            EntryLookup::UnknownSymbol => IdLookup::UnknownSymbol,
            EntryLookup::MissingId => IdLookup::MissingId,
        },
    }
}

/// Message for a body that is no JSON document: a fixed beginning, then the
/// parser's own message.
pub open spec fn spec_not_json_message(error: serde_json::Error) -> Seq<char> {
    "JSON parsing error: "@ + json_error_text(error)
}

/// Message for a body that is no JSON document.
fn not_json_message(error: &serde_json::Error) -> (message: String)
    ensures
        message@ == spec_not_json_message(*error),
{
    let mut message = String::from_str("JSON parsing error: ");
    let detail = error_text(error);
    message.append(detail.as_str());
    message
}

/// Message of the failed series that ends a fetch whose first answer was
/// `reply`; `None` where the answer carries an identifier.
pub open spec fn spec_id_failure(reply: HttpReply, symbol: Seq<char>) -> Option<Seq<char>> {
    match reply {
        HttpReply::Failed { detail } => Some("Network error getting crypto ID: "@ + detail@),
        HttpReply::Answered { status, reason, body } => if !spec_is_success(status) {
            Some("HTTP error getting crypto ID: "@ + decimal(status as nat) + " "@ + reason@)
        } else {
            match json_document(body@) {
                Err(error) => Some(spec_not_json_message(error)),
                Ok(doc) => match spec_lookup_entry(doc, symbol) {
                    EntryLookup::Found(_) => None,
                    EntryLookup::UnknownSymbol => Some("Invalid symbol or no data found"@),
                    EntryLookup::MissingId => Some("Could not find cryptocurrency ID"@),
                },
            }
        },
    }
}

/// The failed series for `plan` that carries `message`.
pub open spec fn failed_series(plan: HistoryPlan, message: Seq<char>) -> HistoricalDataResultView {
    HistoricalDataResultView {
        success: false,
        data: Seq::empty(),
        error: Some(message),
        symbol: Some(plan.symbol@),
        timeframe: Some(plan.timeframe@),
    }
}

/// The failed series for `plan` that carries `message`.
pub fn fail(plan: &HistoryPlan, message: String) -> (series: HistoricalDataResult)
    ensures
        series@ == failed_series(*plan, message@),
        series@.well_formed(),
{
    HistoricalDataResult {
        success: false,
        data: Vec::new(),
        error: Some(message),
        symbol: Some(plan.symbol.clone()),
        timeframe: Some(plan.timeframe.clone()),
    }
}

/// Interprets the first answer: the identifier to ask the quotes of, or the
/// failed series that ends the fetch.
pub fn resolve_id(plan: &HistoryPlan, reply: &HttpReply) -> (outcome: Result<
    u64,
    HistoricalDataResult,
>)
    ensures
        match outcome {
            Ok(id) => {
                &&& spec_id_failure(*reply, plan.symbol@) is None
                &&& reply matches HttpReply::Answered { body, .. }
                &&& spec_lookup_id(body@, plan.symbol@) == IdLookup::Found(id)
            },
            Err(series) => {
                &&& spec_id_failure(*reply, plan.symbol@) matches Some(message)
                &&& series@ == failed_series(*plan, message)
            },
        },
{
    match reply {
        HttpReply::Failed { detail } => {
            let mut message = String::from_str("Network error getting crypto ID: ");
            message.append(detail.as_str());
            Err(fail(plan, message))
        },
        HttpReply::Answered { status, reason, body } => {
            if !is_success(*status) {
                let mut message = String::from_str("HTTP error getting crypto ID: ");
                push_decimal(&mut message, *status as u64);
                message.append(" ");
                message.append(reason.as_str());
                Err(fail(plan, message))
            } else {
                match parse_document(body.as_str()) {
                    Err(error) => Err(fail(plan, not_json_message(&error))),
                    Ok(doc) => match lookup_entry(&doc, plan.symbol.as_str()) {
                        EntryLookup::Found(id) => Ok(id),
                        EntryLookup::UnknownSymbol => Err(
                            fail(plan, String::from_str("Invalid symbol or no data found")),
                        ),
                        EntryLookup::MissingId => Err(
                            fail(plan, String::from_str("Could not find cryptocurrency ID")),
                        ),
                    },
                }
            }
        },
    }
}

/// The point that is made of what one upstream quote gave: a timestamp that
/// parsed, a price, and perhaps a volume. Without timestamp or price there is
/// no point.
pub open spec fn spec_point_from_parts(
    timestamp: Option<i64>,
    price: Option<crate::types::Real>,
    volume: Option<crate::types::Real>,
) -> Option<HistoricalDataPoint> {
    match (timestamp, price) {
        (Some(t), Some(p)) => Some(HistoricalDataPoint { timestamp: t, price: p, volume }),
        _ => None,
    }
}

/// The point that is made of what one upstream quote gave.
pub fn point_from_parts(
    timestamp: Option<i64>,
    price: Option<crate::types::Real>,
    volume: Option<crate::types::Real>,
) -> (point: Option<HistoricalDataPoint>)
    ensures
        point == spec_point_from_parts(timestamp, price, volume),
{
    match (timestamp, price) {
        (Some(t), Some(p)) => Some(HistoricalDataPoint { timestamp: t, price: p, volume }),
        _ => None,
    }
}

/// The number under `key` in `v`, if there is one.
pub open spec fn json_real_member(v: serde_json::Value, key: Seq<char>) -> Option<
    crate::types::Real,
> {
    match json_member(v, key) {
        Some(m) => json_real(m),
        None => None,
    }
}

/// The timestamp that one upstream quote carries, in seconds since the
/// epoch, if it has one that parses.
pub open spec fn spec_quote_timestamp(quote: serde_json::Value) -> Option<i64> {
    match json_member(quote, "timestamp"@) {
        Some(t) => match json_text(t) {
            Some(chars) => rfc3339_epoch_seconds(chars),
            None => None,
        },
        None => None,
    }
}

/// The point that one upstream quote stands for, if it has a timestamp that
/// parses and a price in US dollars.
pub open spec fn spec_quote_point(quote: serde_json::Value) -> Option<HistoricalDataPoint> {
    match (json_member(quote, "timestamp"@), json_member2(quote, "quote"@, "USD"@)) {
        (Some(t), Some(usd)) => match json_text(t) {
            Some(chars) => spec_point_from_parts(
                rfc3339_epoch_seconds(chars),
                json_real_member(usd, "price"@),
                json_real_member(usd, "volume_24h"@),
            ),
            None => None,
        },
        _ => None,
    }
}

/// The points of a sequence of upstream quotes, in order; a quote that
/// stands for no point is skipped.
pub open spec fn spec_quote_points(quotes: Seq<serde_json::Value>) -> Seq<HistoricalDataPoint>
    decreases quotes.len(),
{
    if quotes.len() == 0 {
        Seq::empty()
    } else {
        match spec_quote_point(quotes.last()) {
            Some(p) => spec_quote_points(quotes.drop_last()).push(p),
            None => spec_quote_points(quotes.drop_last()),
        }
    }
}

/// The points of the document of a second answer: those of the array under
/// `data`, `quotes`; none where there is no such array.
pub open spec fn spec_document_points(doc: serde_json::Value) -> Seq<HistoricalDataPoint> {
    match json_member2(doc, "data"@, "quotes"@) {
        Some(q) => match json_items(q) {
            Some(quotes) => spec_quote_points(quotes),
            None => Seq::empty(),
        },
        None => Seq::empty(),
    }
}

/// The number under `key` in `v`, if there is one.
fn real_member(v: &serde_json::Value, key: &str) -> (x: Option<crate::types::Real>)
    ensures
        x == json_real_member(*v, key@),
{
    match value_member(v, key) {
        Some(m) => value_real(m),
        None => None,
    }
}

/// The point that one upstream quote stands for.
pub fn quote_point(quote: &serde_json::Value) -> (point: Option<HistoricalDataPoint>)
    ensures
        point == spec_quote_point(*quote),
{
    let stamp = match value_member(quote, "timestamp") {
        Some(t) => t,
        None => {
            return None;
        },
    };
    let usd = match value_member2(quote, "quote", "USD") {
        Some(u) => u,
        None => {
            return None;
        },
    };
    match value_text(stamp) {
        Some(chars) => point_from_parts(
            parse_rfc3339_seconds(chars),
            real_member(usd, "price"),
            real_member(usd, "volume_24h"),
        ),
        None => None,
    }
}

/// The points of the document of a second answer.
pub fn document_points(doc: &serde_json::Value) -> (points: Vec<HistoricalDataPoint>)
    ensures
        points@ == spec_document_points(*doc),
{
    let mut points: Vec<HistoricalDataPoint> = Vec::new();
    let quotes = match value_member2(doc, "data", "quotes") {
        Some(q) => match value_items(q) {
            Some(a) => a,
            None => {
                return points;
            },
        },
        None => {
            return points;
        },
    };
    let mut i: usize = 0;
    while i < quotes.len()
        invariant
            i <= quotes.len(),
            points@ == spec_quote_points(quotes@.take(i as int)),
        decreases quotes.len() - i,
    {
        proof {
            let next = quotes@.take(i + 1);
            assert(next.drop_last() =~= quotes@.take(i as int));
            assert(next.last() == quotes@[i as int]);
        }
        match quote_point(&quotes[i]) {
            Some(p) => {
                points.push(p);
            },
            None => {},
        }
        i = i + 1;
    }
    assert(quotes@.take(quotes.len() as int) =~= quotes@);
    points
}

/// The series that a fetch for `plan` ends with when the upstream gave
/// `points`: a failure where there is none, else a success that holds, of
/// those points, each that is later than the last one kept before it.
pub open spec fn spec_series_from_points(
    plan: HistoryPlan,
    points: Seq<HistoricalDataPoint>,
) -> HistoricalDataResultView {
    if points.len() == 0 {
        failed_series(plan, "No historical data points found"@)
    } else {
        HistoricalDataResultView {
            success: true,
            data: keep_increasing(points),
            error: None,
            symbol: Some(plan.symbol@),
            timeframe: Some(plan.timeframe@),
        }
    }
}

/// The series that a fetch for `plan` ends with when the upstream gave
/// `points`. A point that is not later than the last point kept before it
/// is skipped, so that the series comes in strictly increasing time.
pub fn series_from_points(plan: &HistoryPlan, points: Vec<HistoricalDataPoint>) -> (series:
    HistoricalDataResult)
    ensures
        series@ == spec_series_from_points(*plan, points@),
        series.success == (points@.len() > 0),
        series@.well_formed(),
{
    proof {
        lemma_keep_increasing(points@);
    }
    if points.len() == 0 {
        fail(plan, String::from_str("No historical data points found"))
    } else {
        HistoricalDataResult {
            success: true,
            data: increasing_points(&points),
            error: None,
            symbol: Some(plan.symbol.clone()),
            timeframe: Some(plan.timeframe.clone()),
        }
    }
}

/// The series that a fetch for `plan` ends with when the second answer was
/// `reply`.
pub open spec fn spec_finish_history(plan: HistoryPlan, reply: HttpReply) -> HistoricalDataResultView {
    match reply {
        HttpReply::Failed { detail } => failed_series(plan, "Network error: "@ + detail@),
        HttpReply::Answered { status, reason, body } => if !spec_is_success(status) {
            failed_series(plan, "HTTP error: "@ + decimal(status as nat) + " "@ + reason@)
        } else {
            match json_document(body@) {
                Err(error) => failed_series(plan, spec_not_json_message(error)),
                Ok(doc) => spec_series_from_points(plan, spec_document_points(doc)),
            }
        },
    }
}

/// Interprets the second answer: the series that the fetch ends with.
/// Whatever the answer, the series satisfies the invariant of a series.
pub fn finish_history(plan: &HistoryPlan, reply: &HttpReply) -> (series: HistoricalDataResult)
    ensures
        series@ == spec_finish_history(*plan, *reply),
        series@.well_formed(),
{
    match reply {
        HttpReply::Failed { detail } => {
            let mut message = String::from_str("Network error: ");
            message.append(detail.as_str());
            fail(plan, message)
        },
        HttpReply::Answered { status, reason, body } => {
            if !is_success(*status) {
                let mut message = String::from_str("HTTP error: ");
                push_decimal(&mut message, *status as u64);
                message.append(" ");
                message.append(reason.as_str());
                fail(plan, message)
            } else {
                match parse_document(body.as_str()) {
                    Err(error) => fail(plan, not_json_message(&error)),
                    Ok(doc) => series_from_points(plan, document_points(&doc)),
                }
            }
        },
    }
}

/// Whatever the upstream answers, a fetch ends with a series that satisfies
/// the invariant of a series and echoes the plan's symbol and timeframe. It
/// succeeds exactly when the answer holds a point, and then begins with the
/// first point of the answer.
pub proof fn lemma_finish_history_shape(plan: HistoryPlan, reply: HttpReply)
    ensures
        spec_finish_history(plan, reply).well_formed(),
        spec_finish_history(plan, reply).symbol == Some(plan.symbol@),
        spec_finish_history(plan, reply).timeframe == Some(plan.timeframe@),
        spec_finish_history(plan, reply).success == (spec_finish_history(plan, reply).data.len()
            > 0),
        spec_finish_history(plan, reply).success == (spec_finish_history(plan, reply).error
            is None),
{
    if let HttpReply::Answered { status, reason, body } = reply {
        if spec_is_success(status) {
            if let Ok(doc) = json_document(body@) {
                lemma_keep_increasing(spec_document_points(doc));
            }
        }
    }
}

/// Where the upstream's points come in strictly increasing time, the series
/// holds all of them.
pub proof fn lemma_ordered_points_are_kept(plan: HistoryPlan, points: Seq<HistoricalDataPoint>)
    requires
        points.len() > 0,
        strictly_increasing(points),
    ensures
        spec_series_from_points(plan, points).data == points,
{
    lemma_keep_increasing_keeps_all(points);
}

} // verus!

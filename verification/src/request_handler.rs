//! Handling of the requests for a series that clients publish on the
//! request topic: reading a request, serving it from the cache where the
//! cache is fresh, and otherwise fetching it once however many clients ask
//! for it at the same time.

use vstd::prelude::*;
use crate::cache::HistoryCache;
use crate::config::{
    number_or, spec_number_or, spec_text_or, text_or, DEFAULT_BROKER_PORT,
    DEFAULT_LOCAL_BROKER_HOST,
};
use crate::publisher::{QoS, Subscription};
use crate::session::{
    create_mqtt_options, session_model, spec_session, REQUEST_HANDLER_CLIENT_ID,
    SERVER_KEEP_ALIVE_SECS,
};
use crate::types::opt_chars;
use crate::store::KeyedStore;
use crate::text::{
    ascii_upper, chars_of, find_char, first_at, lemma_ascii_upper_idempotent,
    lemma_ascii_upper_keeps, lemma_first_at_is, string_of_range,
};
use crate::topics::{cache_key, spec_cache_key, REQUEST_TOPIC};
use crate::types::HistoricalDataResult;

verus! {

/// Seconds that the handler waits after a connection error before it polls
/// its connection again.
pub const RECONNECT_DELAY_SECS: u64 = 5;

/// Whether every byte is an ASCII character.
pub open spec fn is_ascii_bytes(bytes: Seq<u8>) -> bool {
    forall|i: int| 0 <= i < bytes.len() ==> #[trigger] bytes[i] < 128
}

/// The characters that a sequence of ASCII bytes writes.
pub open spec fn bytes_as_chars(bytes: Seq<u8>) -> Seq<char> {
    Seq::new(bytes.len(), |i: int| bytes[i] as char)
}

/// The two parts of a payload: what stands before its first colon and what
/// stands after it. `None` for a payload that is not ASCII, and for one
/// without colon.
pub open spec fn spec_parse_request(payload: Seq<u8>) -> Option<(Seq<char>, Seq<char>)> {
    let chars = bytes_as_chars(payload);
    let cut = first_at(chars, ':', 0);
    if is_ascii_bytes(payload) && cut < chars.len() {
        Some((chars.subrange(0, cut), chars.subrange(cut + 1, chars.len() as int)))
    } else {
        None
    }
}

/// Whether a character is white space.
pub open spec fn is_white_space(c: char) -> bool {
    c == ' ' || c == '\t' || c == '\n' || c == '\r' || c == '\x0C'
}

/// Whether a part of a request is well-formed: not empty, and without white
/// space.
pub open spec fn spec_is_valid_part(part: Seq<char>) -> bool {
    part.len() > 0 && forall|i: int| 0 <= i < part.len() ==> !is_white_space(#[trigger] part[i])
}

/// Whether a symbol and a timeframe make a request.
pub open spec fn spec_is_valid_request(symbol: Seq<char>, timeframe: Seq<char>) -> bool {
    spec_is_valid_part(symbol) && spec_is_valid_part(timeframe)
}

/// The symbol and the timeframe that a payload asks for; `None` for a
/// payload that is no request.
pub open spec fn spec_accept_request(payload: Seq<u8>) -> Option<(Seq<char>, Seq<char>)> {
    match spec_parse_request(payload) {
        Some((symbol, timeframe)) => if spec_is_valid_request(symbol, timeframe) {
            Some((symbol, timeframe))
        } else {
            None
        },
        None => None,
    }
}

/// Splits a payload at its first colon.
pub fn parse_request(payload: &[u8]) -> (parts: Option<(String, String)>)
    ensures
        match parts {
            Some((symbol, timeframe)) => spec_parse_request(payload@) == Some(
                (symbol@, timeframe@),
            ),
            None => spec_parse_request(payload@) is None,
        },
{
    let mut chars: Vec<char> = Vec::new();
    let mut i: usize = 0;
    while i < payload.len()
        invariant
            i <= payload.len(),
            chars@ == bytes_as_chars(payload@).take(i as int),
            forall|j: int| 0 <= j < i ==> #[trigger] payload@[j] < 128,
        decreases payload.len() - i,
    {
        let b = payload[i];
        if b >= 128 {
            assert(!(payload@[i as int] < 128));
            return None;
        }
        chars.push(b as char);
        assert(chars@ =~= bytes_as_chars(payload@).take(i + 1));
        i = i + 1;
    }
    assert(chars@ =~= bytes_as_chars(payload@));
    let cut = find_char(&chars, 0, ':');
    if cut < chars.len() {
        Some((string_of_range(&chars, 0, cut), string_of_range(&chars, cut + 1, chars.len())))
    } else {
        None
    }
}

/// Whether a part of a request is well-formed.
pub fn is_valid_part(part: &str) -> (valid: bool)
    ensures
        valid == spec_is_valid_part(part@),
{
    let chars = chars_of(part);
    if chars.len() == 0 {
        return false;
    }
    let mut i: usize = 0;
    while i < chars.len()
        invariant
            i <= chars.len(),
            chars@ == part@,
            forall|j: int| 0 <= j < i ==> !is_white_space(#[trigger] chars@[j]),
        decreases chars.len() - i,
    {
        let c = chars[i];
        if c == ' ' || c == '\t' || c == '\n' || c == '\r' || c == '\x0C' {
            assert(is_white_space(part@[i as int]));
            return false;
        }
        i = i + 1;
    }
    true
}

/// Whether a symbol and a timeframe make a request: neither is empty, and
/// neither holds white space.
pub fn is_valid_request(symbol: &str, timeframe: &str) -> (valid: bool)
    ensures
        valid == spec_is_valid_request(symbol@, timeframe@),
{
    is_valid_part(symbol) && is_valid_part(timeframe)
}

/// Reads a request: splits the payload at its first colon and checks the
/// two parts.
pub fn accept_request(payload: &[u8]) -> (parts: Option<(String, String)>)
    ensures
        match parts {
            Some((symbol, timeframe)) => spec_accept_request(payload@) == Some(
                (symbol@, timeframe@),
            ),
            None => spec_accept_request(payload@) is None,
        },
{
    match parse_request(payload) {
        Some((symbol, timeframe)) => if is_valid_request(symbol.as_str(), timeframe.as_str()) {
            Some((symbol, timeframe))
        } else {
            None
        },
        None => None,
    }
}

/// What the handler does about a request.
#[derive(Debug)]
pub enum RequestAction {
    /// The payload is no request: nothing is done.
    Ignore,
    /// The cache holds a fresh series: it is published again.
    Republish { symbol: String, timeframe: String, series: HistoricalDataResult },
    /// A fetch of the same series is under way: its publication will serve
    /// this request too.
    Coalesced,
    /// The series is to be fetched from the upstream.
    Fetch { symbol: String, timeframe: String },
}

/// The kinds of `RequestAction`.
#[derive(Clone, Copy, Debug, PartialEq, Eq, Structural)]
pub enum RequestKind {
    Ignore,
    Republish,
    Coalesced,
    Fetch,
}

impl RequestAction {
    /// The kind of the action.
    pub open spec fn kind(&self) -> RequestKind {
        match self {
            RequestAction::Ignore => RequestKind::Ignore,
            RequestAction::Republish { .. } => RequestKind::Republish,
            RequestAction::Coalesced => RequestKind::Coalesced,
            RequestAction::Fetch { .. } => RequestKind::Fetch,
        }
    }

    /// The kind of the action, for callers outside proofs.
    pub fn action_kind(&self) -> (kind: RequestKind)
        ensures
            kind == self.kind(),
    {
        match self {
            RequestAction::Ignore => RequestKind::Ignore,
            RequestAction::Republish { .. } => RequestKind::Republish,
            RequestAction::Coalesced => RequestKind::Coalesced,
            RequestAction::Fetch { .. } => RequestKind::Fetch,
        }
    }
}

/// What is done about a well-formed request for `key`, by whether the cache
/// holds a fresh series for it and by the fetches under way.
pub open spec fn spec_request_kind(in_flight: Set<Seq<char>>, fresh: bool, key: Seq<char>) -> RequestKind {
    if fresh {
        RequestKind::Republish
    } else if in_flight.contains(key) {
        RequestKind::Coalesced
    } else {
        RequestKind::Fetch
    }
}

/// The fetches under way once a well-formed request for `key` is handled.
pub open spec fn spec_in_flight_after(in_flight: Set<Seq<char>>, fresh: bool, key: Seq<char>) -> Set<
    Seq<char>,
> {
    if spec_request_kind(in_flight, fresh, key) == RequestKind::Fetch {
        in_flight.insert(key)
    } else {
        in_flight
    }
}

/// The fetches that are under way, by the key of their series.
#[derive(Debug)]
pub struct RequestHandler {
    pub in_flight: KeyedStore<()>,
}

impl RequestHandler {
    /// No fetch is recorded twice.
    pub open spec fn well_formed(&self) -> bool {
        self.in_flight.well_formed()
    }

    /// The keys of the series of which a fetch is under way.
    pub open spec fn in_flight_keys(&self) -> Set<Seq<char>> {
        self.in_flight@.dom()
    }

    /// Whether the handler is well-formed.
    pub fn is_well_formed(&self) -> (ok: bool)
        ensures
            ok == self.well_formed(),
    {
        self.in_flight.is_well_formed()
    }

    /// A handler with no fetch under way.
    pub fn new() -> (handler: Self)
        ensures
            handler.well_formed(),
            handler.in_flight_keys() == Set::<Seq<char>>::empty(),
    {
        let handler = RequestHandler { in_flight: KeyedStore::new() };
        assert(handler.in_flight_keys() =~= Set::<Seq<char>>::empty());
        handler
    }

    /// A payload arrived on the request topic at `now`. A payload that is
    /// no request is ignored. A request of which the cache holds a fresh
    /// series is answered from the cache. One for a series that is being
    /// fetched waits for that fetch. Any other starts a fetch.
    pub fn on_request(&mut self, cache: &HistoryCache, payload: &[u8], now: u64) -> (action:
        RequestAction)
        requires
            old(self).well_formed(),
            cache.well_formed(),
        ensures
            final(self).well_formed(),
            match spec_accept_request(payload@) {
                None => action is Ignore && final(self).in_flight_keys() == old(self).in_flight_keys(),
                Some((symbol, timeframe)) => {
                    let key = spec_cache_key(symbol, timeframe);
                    let fresh = cache.spec_has_fresh(symbol, timeframe, now);
                    &&& action.kind() == spec_request_kind(old(self).in_flight_keys(), fresh, key)
                    &&& final(self).in_flight_keys() == spec_in_flight_after(
                        old(self).in_flight_keys(),
                        fresh,
                        key,
                    )
                    &&& action matches RequestAction::Republish { symbol: s, timeframe: t, series }
                        ==> s@ == symbol && t@ == timeframe && series@ == cache.entries@[key].series@
                    &&& action matches RequestAction::Fetch { symbol: s, timeframe: t } ==> s@
                        == symbol && t@ == timeframe
                },
            },
    {
        let (symbol, timeframe) = match accept_request(payload) {
            Some(parts) => parts,
            None => {
                return RequestAction::Ignore;
            },
        };
        match cache.get_fresh(symbol.as_str(), timeframe.as_str(), now) {
            Some(series) => {
                let copy = series.clone();
                return RequestAction::Republish { symbol, timeframe, series: copy };
            },
            None => {},
        }
        let key = cache_key(symbol.as_str(), timeframe.as_str());
        if self.in_flight.contains_key(key.as_str()) {
            RequestAction::Coalesced
        } else {
            let ghost before = self.in_flight_keys();
            self.in_flight.insert(key, ());
            assert(self.in_flight_keys() =~= before.insert(spec_cache_key(symbol@, timeframe@)));
            RequestAction::Fetch { symbol, timeframe }
        }
    }

    /// The fetch of the series of `symbol` over `timeframe` ended at `now`
    /// with `series`. The fetch is no longer under way. A successful series
    /// enters the cache and is handed back to be published; a failed one
    /// leaves no trace.
    pub fn on_fetch_complete(
        &mut self,
        cache: &mut HistoryCache,
        symbol: &str,
        timeframe: &str,
        series: HistoricalDataResult,
        now: u64,
    ) -> (publish: Option<HistoricalDataResult>)
        requires
            old(self).well_formed(),
            old(cache).well_formed(),
        ensures
            final(self).well_formed(),
            final(cache).well_formed(),
            final(self).in_flight_keys() == old(self).in_flight_keys().remove(
                spec_cache_key(symbol@, timeframe@),
            ),
            if series.success {
                let key = spec_cache_key(symbol@, timeframe@);
                &&& publish == Some(series)
                &&& final(cache).entries@.contains_key(key)
                &&& final(cache).entries@[key].series@ == series@
                &&& final(cache).entries@[key].inserted_at == now
                &&& final(cache).entries@ == old(cache).entries@.insert(
                    key,
                    final(cache).entries@[key],
                )
            } else {
                &&& publish is None
                &&& *final(cache) == *old(cache)
            },
    {
        let key = cache_key(symbol, timeframe);
        let ghost before = self.in_flight_keys();
        self.in_flight.remove(key.as_str());
        assert(self.in_flight_keys() =~= before.remove(spec_cache_key(symbol@, timeframe@)));
        if series.success {
            cache.insert(symbol, timeframe, series.clone(), now);
            Some(series)
        } else {
            None
        }
    }
}

/// How many of `n` requests for `key`, handled one after the other while
/// the cache holds nothing fresh and no fetch ends, start a fetch.
pub open spec fn fetches_started(in_flight: Set<Seq<char>>, key: Seq<char>, n: nat) -> nat
    decreases n,
{
    if n == 0 {
        0
    } else {
        let first: nat = if spec_request_kind(in_flight, false, key) == RequestKind::Fetch {
            1
        } else {
            0
        };
        first + fetches_started(spec_in_flight_after(in_flight, false, key), key, (n - 1) as nat)
    }
}

/// While a fetch of a series is under way, no request for it starts
/// another.
pub proof fn lemma_no_fetch_while_in_flight(in_flight: Set<Seq<char>>, key: Seq<char>, n: nat)
    requires
        in_flight.contains(key),
    ensures
        fetches_started(in_flight, key, n) == 0,
    decreases n,
{
    if n > 0 {
        lemma_no_fetch_while_in_flight(in_flight, key, (n - 1) as nat);
    }
}

/// However many clients ask for the same series at the same time, exactly
/// one fetch is started for it; and since a fetch ends with at most one
/// publication, they are all served by one.
pub proof fn lemma_concurrent_requests_fetch_once(in_flight: Set<Seq<char>>, key: Seq<char>, n: nat)
    requires
        n >= 1,
        !in_flight.contains(key),
    ensures
        fetches_started(in_flight, key, n) == 1,
{
    lemma_no_fetch_while_in_flight(in_flight.insert(key), key, (n - 1) as nat);
}

/// The subscription of the session that receives the requests: the request
/// topic, delivered at least once.
pub fn request_subscription() -> (subscription: Subscription)
    ensures
        subscription.topic@ == REQUEST_TOPIC@,
        subscription.qos == QoS::AtLeastOnce,
{
    Subscription { topic: REQUEST_TOPIC.to_owned(), qos: QoS::AtLeastOnce }
}

/// Options of the session that receives the requests, from the settings of
/// the broker's host and port: a session of its own, apart from the one on
/// which the server publishes.
pub fn request_handler_options(broker_host: Option<String>, broker_port: &Option<String>) -> (options:
    rumqttc::MqttOptions)
    ensures
        session_model(options) == spec_session(
            REQUEST_HANDLER_CLIENT_ID@,
            spec_text_or(opt_chars(broker_host), DEFAULT_LOCAL_BROKER_HOST@),
            spec_number_or(opt_chars(*broker_port), 65535, DEFAULT_BROKER_PORT as nat) as u16,
            SERVER_KEEP_ALIVE_SECS,
        ),
{
    let host = text_or(broker_host, DEFAULT_LOCAL_BROKER_HOST);
    let port = number_or(broker_port, 65535, DEFAULT_BROKER_PORT as u64);
    create_mqtt_options(REQUEST_HANDLER_CLIENT_ID, host.as_str(), port as u16)
}

/// The payload that a client writes to ask for a series is read back by the
/// handler as the normalised symbol and the timeframe.
pub proof fn lemma_request_reads_back(payload: Seq<u8>, symbol: Seq<char>, timeframe: Seq<char>)
    requires
        is_ascii_bytes(payload),
        bytes_as_chars(payload) == spec_cache_key(symbol, timeframe),
        spec_is_valid_part(symbol),
        spec_is_valid_part(timeframe),
        !symbol.contains(':'),
    ensures
        spec_accept_request(payload) == Some((ascii_upper(symbol), timeframe)),
{
    let chars = bytes_as_chars(payload);
    let upper = ascii_upper(symbol);
    let cut = upper.len() as int;
    lemma_ascii_upper_keeps(symbol, ':');
    assert(chars[cut] == ':');
    assert forall|j: int| 0 <= j < cut implies chars[j] != ':' by {
        assert(chars[j] == upper[j]);
    }
    lemma_first_at_is(chars, ':', 0, cut);
    assert(chars.subrange(0, cut) =~= upper);
    assert(chars.subrange(cut + 1, chars.len() as int) =~= timeframe);
    assert forall|i: int| 0 <= i < upper.len() implies !is_white_space(#[trigger] upper[i]) by {
        assert(!is_white_space(symbol[i]));
    }
}

/// The key of a series does not depend on the case in which its symbol is
/// written: a request and the cache agree on it.
pub proof fn lemma_cache_key_normalises(symbol: Seq<char>, timeframe: Seq<char>)
    ensures
        spec_cache_key(ascii_upper(symbol), timeframe) == spec_cache_key(symbol, timeframe),
{
    lemma_ascii_upper_idempotent(symbol);
}

} // verus!

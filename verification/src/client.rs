//! State of the long-lived client that consumers of the bus use: whether it
//! is connected, how often it failed to connect in a row, the latest
//! snapshot, and the series it has received. The event loop that owns the
//! connection hands each event to the handlers of this module and performs
//! what they return.

use vstd::prelude::*;
use vstd::string::*;
use crate::backoff::{backoff_delay_secs, spec_backoff_delay, MAX_RECONNECT_ATTEMPTS};
use crate::config::Config;
use crate::publisher::{
    spec_history_publication, Publication, PublicationView, QoS, Subscription,
};
use crate::text::ascii_upper;
use crate::session::{
    session_model, session_options, spec_session, CLIENT_KEEP_ALIVE_SECS, SUBSCRIBER_CLIENT_ID,
};
use crate::store::KeyedStore;
use crate::topics::{
    classify_topic, historical_topic, is_level, lemma_historical_topic_round_trip,
    spec_classify_topic, spec_historical_topic, TopicKind, HISTORICAL_TOPIC_FILTER,
    LATEST_PRICES_TOPIC,
};
use crate::types::{
    clone_snapshot, snapshot_view, CryptoCurrency, HistoricalDataResult,
};

verus! {

/// Shortest time between two accepted snapshots, in milliseconds.
pub const DEBOUNCE_MS: u64 = 500;

/// Number of failed attempts above which a client reports that it has
/// exceeded its retries.
pub const MAX_RETRY_ATTEMPTS: u32 = 3;

/// State of a consumer's client.
#[derive(Debug)]
pub struct MQTTClient {
    /// The most recent accepted snapshot.
    pub latest_prices: Option<Vec<CryptoCurrency>>,
    /// The series received so far, each under the topic it arrived on.
    pub historical_data: KeyedStore<HistoricalDataResult>,
    /// Whether the session is established.
    pub is_connected: bool,
    /// Connection errors since the session was last established or the
    /// counter was last reset.
    pub connection_attempts: u32,
    /// Number of errors above which `has_exceeded_max_retries` holds.
    pub max_retry_attempts: u32,
    /// Whether the embedder has registered a hook for accepted snapshots.
    pub callback_registered: bool,
}

/// What to do after a connection error.
#[derive(Clone, Copy, Debug, PartialEq, Eq, Structural)]
pub enum Reconnect {
    /// Sleep for `secs` seconds, then poll the connection again.
    RetryAfter { secs: u64 },
    /// Leave the event loop: the retries are exhausted.
    GiveUp,
}

/// The counter after one more connection error. It stops one above the
/// number of attempts that are retried.
pub open spec fn spec_attempts_after_error(attempts: u32) -> u32 {
    if attempts <= MAX_RECONNECT_ATTEMPTS {
        (attempts + 1) as u32
    } else {
        attempts
    }
}

/// What to do after a connection error that found the counter at
/// `attempts`: the first five errors in a row are retried, each after
/// `min(2^(n-1), 32)` seconds for the `n`-th error; then the client gives up.
pub open spec fn spec_reconnect(attempts: u32) -> Reconnect {
    if attempts < MAX_RECONNECT_ATTEMPTS {
        Reconnect::RetryAfter { secs: spec_backoff_delay((attempts + 1) as nat) as u64 }
    } else {
        Reconnect::GiveUp
    }
}

impl MQTTClient {
    /// The store is sound, and the counter has not run past its stop.
    pub open spec fn well_formed(&self) -> bool {
        &&& self.historical_data.well_formed()
        &&& self.connection_attempts <= MAX_RECONNECT_ATTEMPTS + 1
    }

    /// Whether the state is well-formed.
    pub fn is_well_formed(&self) -> (ok: bool)
        ensures
            ok == self.well_formed(),
    {
        self.historical_data.is_well_formed() && self.connection_attempts
            <= MAX_RECONNECT_ATTEMPTS + 1
    }

    /// A client that has seen nothing yet.
    pub fn new() -> (client: Self)
        ensures
            client.well_formed(),
            client.latest_prices is None,
            client.historical_data@ == Map::<Seq<char>, HistoricalDataResult>::empty(),
            !client.is_connected,
            client.connection_attempts == 0,
            client.max_retry_attempts == MAX_RETRY_ATTEMPTS,
            !client.callback_registered,
    {
        MQTTClient {
            latest_prices: None,
            historical_data: KeyedStore::new(),
            is_connected: false,
            connection_attempts: 0,
            max_retry_attempts: MAX_RETRY_ATTEMPTS,
            callback_registered: false,
        }
    }

    /// Nothing is to be done to connect: the connection is made by the
    /// event loop, which reports it as an event.
    pub fn connect(&self) -> (done: Result<(), String>)
        ensures
            done is Ok,
    {
        Ok(())
    }

    /// A copy of the most recent accepted snapshot.
    pub fn get_latest_prices(&self) -> (latest: Option<Vec<CryptoCurrency>>)
        ensures
            match latest {
                Some(copy) => self.latest_prices matches Some(held) && snapshot_view(copy@)
                    == snapshot_view(held@),
                None => self.latest_prices is None,
            },
    {
        match &self.latest_prices {
            Some(held) => Some(clone_snapshot(held)),
            None => None,
        }
    }

    /// A copy of the series received for `symbol` over `timeframe`.
    pub fn get_historical_data(&self, symbol: &str, timeframe: &str) -> (series: Option<
        HistoricalDataResult,
    >)
        requires
            self.well_formed(),
        ensures
            match series {
                Some(copy) => {
                    &&& self.historical_data@.contains_key(
                        spec_historical_topic(symbol@, timeframe@),
                    )
                    &&& copy@ == self.historical_data@[spec_historical_topic(
                        symbol@,
                        timeframe@,
                    )]@
                },
                None => !self.historical_data@.contains_key(
                    spec_historical_topic(symbol@, timeframe@),
                ),
            },
    {
        let topic = historical_topic(symbol, timeframe);
        match self.historical_data.get(topic.as_str()) {
            Some(held) => Some(held.clone()),
            None => None,
        }
    }

    /// Whether the session is established.
    pub fn is_connected(&self) -> (connected: bool)
        ensures
            connected == self.is_connected,
    {
        self.is_connected
    }

    /// Connection errors in a row.
    pub fn get_connection_attempts(&self) -> (attempts: u32)
        ensures
            attempts == self.connection_attempts,
    {
        self.connection_attempts
    }

    /// Forgets the connection errors counted so far, so that the event loop
    /// can be entered again with a full set of retries.
    pub fn reset_connection_attempts(&mut self)
        ensures
            *final(self) == (MQTTClient { connection_attempts: 0, ..*old(self) }),
    {
        self.connection_attempts = 0;
    }

    /// Whether the retries of the connection are exhausted: more errors in
    /// a row were counted than are retried. The event loop has then been
    /// told to leave; it is entered again once the counter is reset.
    pub open spec fn spec_retries_exhausted(&self) -> bool {
        self.connection_attempts > MAX_RECONNECT_ATTEMPTS
    }

    /// Whether the retries of the connection are exhausted.
    pub fn retries_exhausted(&self) -> (exhausted: bool)
        ensures
            exhausted == self.spec_retries_exhausted(),
    {
        self.connection_attempts > MAX_RECONNECT_ATTEMPTS
    }

    /// Whether more errors were counted than the client tolerates.
    pub fn has_exceeded_max_retries(&self) -> (exceeded: bool)
        ensures
            exceeded == (self.connection_attempts > self.max_retry_attempts),
    {
        self.connection_attempts > self.max_retry_attempts
    }

    /// The publication of `payload` on `topic` as a client sends it:
    /// delivered at least once, not retained.
    pub fn publish_message(&self, topic: &str, payload: &str) -> (publication: Publication)
        ensures
            publication@ == (PublicationView {
                topic: topic@,
                qos: QoS::AtLeastOnce,
                retain: false,
                payload: payload@,
            }),
    {
        Publication {
            topic: topic.to_owned(),
            qos: QoS::AtLeastOnce,
            retain: false,
            payload: payload.to_owned(),
        }
    }

    /// Records that the embedder has registered a hook.
    pub fn set_price_update_callback(&mut self)
        ensures
            *final(self) == (MQTTClient { callback_registered: true, ..*old(self) }),
    {
        self.callback_registered = true;
    }

    /// Records that the embedder has withdrawn its hook.
    pub fn clear_price_update_callback(&mut self)
        ensures
            *final(self) == (MQTTClient { callback_registered: false, ..*old(self) }),
    {
        self.callback_registered = false;
    }

    /// Whether a hook is to be invoked now: exactly when one is registered.
    pub fn trigger_price_update_callback(&self) -> (invoke: bool)
        ensures
            invoke == self.callback_registered,
    {
        self.callback_registered
    }
}

/// Holds the configuration of a client and handles the events of its
/// connection.
#[derive(Debug)]
pub struct ConnectionManager {
    pub config: Config,
}

impl ConnectionManager {
    /// A manager for the client that `config` describes.
    pub fn new(config: &Config) -> (manager: Result<Self, String>)
        ensures
            manager matches Ok(made) && made.config@ == config@,
    {
        Ok(ConnectionManager { config: config.clone() })
    }

    /// Options of the client's session: its fixed identifier, the
    /// configured broker, a keep-alive of 60 seconds, a clean session, and
    /// packets of at most 102,400 bytes.
    pub fn create_client(&self) -> (options: rumqttc::MqttOptions)
        ensures
            session_model(options) == spec_session(
                SUBSCRIBER_CLIENT_ID@,
                self.config.broker_host@,
                self.config.broker_port,
                CLIENT_KEEP_ALIVE_SECS,
            ),
    {
        session_options(
            SUBSCRIBER_CLIENT_ID,
            self.config.broker_host.as_str(),
            self.config.broker_port,
            CLIENT_KEEP_ALIVE_SECS,
        )
    }

    /// The broker acknowledged the connection: the client is connected, its
    /// error counter starts over, and it subscribes again, to the latest
    /// prices (delivered at least once) and to every series (delivered at
    /// most once).
    pub fn handle_connection_success(client: &mut MQTTClient) -> (subscriptions: Vec<Subscription>)
        ensures
            *final(client) == (MQTTClient {
                is_connected: true,
                connection_attempts: 0,
                ..*old(client)
            }),
            subscriptions@.len() == 2,
            subscriptions@[0].topic@ == LATEST_PRICES_TOPIC@,
            subscriptions@[0].qos == QoS::AtLeastOnce,
            subscriptions@[1].topic@ == HISTORICAL_TOPIC_FILTER@,
            subscriptions@[1].qos == QoS::AtMostOnce,
    {
        client.is_connected = true;
        client.connection_attempts = 0;
        let mut subscriptions: Vec<Subscription> = Vec::new();
        subscriptions.push(
            Subscription { topic: String::from_str(LATEST_PRICES_TOPIC), qos: QoS::AtLeastOnce },
        );
        subscriptions.push(
            Subscription { topic: String::from_str(HISTORICAL_TOPIC_FILTER), qos: QoS::AtMostOnce },
        );
        subscriptions
    }

    /// The broker closed the connection: the client is no longer connected.
    pub fn handle_disconnect(client: &mut MQTTClient)
        ensures
            *final(client) == (MQTTClient { is_connected: false, ..*old(client) }),
    {
        client.is_connected = false;
    }

    /// Polling the connection failed: the client is no longer connected and
    /// the error is counted. The `n`-th error in a row, up to the fifth, is
    /// answered by a pause of `min(2^(n-1), 32)` seconds; a later one ends
    /// the event loop.
    pub fn handle_connection_error(client: &mut MQTTClient) -> (next: Reconnect)
        requires
            old(client).well_formed(),
        ensures
            final(client).well_formed(),
            *final(client) == (MQTTClient {
                is_connected: false,
                connection_attempts: spec_attempts_after_error(old(client).connection_attempts),
                ..*old(client)
            }),
            next == spec_reconnect(old(client).connection_attempts),
            next matches Reconnect::RetryAfter { secs } ==> secs == spec_backoff_delay(
                final(client).connection_attempts as nat,
            ),
            next is GiveUp <==> final(client).spec_retries_exhausted(),
    {
        client.is_connected = false;
        if client.connection_attempts <= MAX_RECONNECT_ATTEMPTS {
            client.connection_attempts = client.connection_attempts + 1;
        }
        if client.connection_attempts <= MAX_RECONNECT_ATTEMPTS {
            Reconnect::RetryAfter { secs: backoff_delay_secs(client.connection_attempts) }
        } else {
            Reconnect::GiveUp
        }
    }
}

/// Whether a snapshot that arrives at `now` is accepted by a client that
/// last accepted one at `last`: there was none before, or at least the
/// debounce window has passed. Times are in milliseconds on a clock that
/// does not run backwards.
pub open spec fn spec_debounce_accepts(last: Option<u64>, now: u64) -> bool {
    match last {
        Some(at) => now >= at && now - at >= DEBOUNCE_MS,
        None => true,
    }
}

/// The time of the last accepted snapshot, once one has arrived at `now`.
pub open spec fn spec_debounce_next(last: Option<u64>, now: u64) -> Option<u64> {
    if spec_debounce_accepts(last, now) {
        Some(now)
    } else {
        last
    }
}

/// What arrived on the bus, decoded by the family of its topic. `None` in a
/// variant stands for a payload that did not decode.
#[derive(Debug)]
pub enum Incoming {
    Snapshot(Option<Vec<CryptoCurrency>>),
    Series(Option<HistoricalDataResult>),
    Instrument(Option<CryptoCurrency>),
    /// A payload on a topic of no known family.
    Opaque,
}

/// What a client did with a message.
#[derive(Clone, Copy, Debug, PartialEq, Eq, Structural)]
pub enum MessageOutcome {
    /// The snapshot replaced the one held; `notify` tells whether the
    /// embedder's hook is to be invoked, once.
    SnapshotAccepted { notify: bool },
    /// The snapshot came too soon after the last accepted one; it was
    /// dropped.
    SnapshotDebounced,
    /// The series was stored under its topic.
    SeriesStored,
    /// An instrument on its own topic: looked at, not stored.
    InstrumentSeen,
    /// A payload that did not decode, or a topic of no known family.
    Dropped,
}

/// Decides what becomes of the messages of a client, and filters redundant
/// snapshots.
#[derive(Debug)]
pub struct MessageHandler {
    /// When the last snapshot was accepted.
    pub last_update_time: Option<u64>,
}

/// What a message on `topic` at `now_ms` does to a handler and its client.
/// Whatever the message, the connection state and the registration of the
/// hook stay as they are.
///
/// * A snapshot on the topic of the latest prices is accepted where the
///   debounce window has passed: it becomes the held snapshot, and the hook
///   is to be invoked where one is registered. Else it is dropped whole.
/// * A series on the topic of a series is stored under that topic.
/// * An instrument on its own topic is looked at and stored nowhere.
/// * Anything else is dropped and changes nothing: a payload that did not
///   decode, a decoded form that is not that of the topic's family, and a
///   topic of no known family.
pub open spec fn message_effect(
    handler: MessageHandler,
    client: MQTTClient,
    topic: Seq<char>,
    message: Incoming,
    now_ms: u64,
    handler_after: MessageHandler,
    client_after: MQTTClient,
    outcome: MessageOutcome,
) -> bool {
    &&& client_after.is_connected == client.is_connected
    &&& client_after.connection_attempts == client.connection_attempts
    &&& client_after.max_retry_attempts == client.max_retry_attempts
    &&& client_after.callback_registered == client.callback_registered
    &&& match (spec_classify_topic(topic), message) {
        (TopicKind::LatestPrices, Incoming::Snapshot(Some(snapshot))) => {
            &&& client_after.historical_data == client.historical_data
            &&& if spec_debounce_accepts(handler.last_update_time, now_ms) {
                &&& outcome == (MessageOutcome::SnapshotAccepted {
                    notify: client.callback_registered,
                })
                &&& handler_after.last_update_time == Some(now_ms)
                &&& client_after.latest_prices == Some(snapshot)
            } else {
                &&& outcome == MessageOutcome::SnapshotDebounced
                &&& handler_after == handler
                &&& client_after.latest_prices == client.latest_prices
            }
        },
        (TopicKind::Historical, Incoming::Series(Some(series))) => {
            &&& outcome == MessageOutcome::SeriesStored
            &&& handler_after == handler
            &&& client_after.latest_prices == client.latest_prices
            &&& client_after.historical_data@ == client.historical_data@.insert(topic, series)
        },
        (TopicKind::SymbolPrice, Incoming::Instrument(Some(_))) => {
            &&& outcome == MessageOutcome::InstrumentSeen
            &&& handler_after == handler
            &&& client_after == client
        },
        _ => {
            &&& outcome == MessageOutcome::Dropped
            &&& handler_after == handler
            &&& client_after == client
        },
    }
}

impl MessageHandler {
    /// A handler that has accepted nothing yet.
    pub fn new() -> (handler: Self)
        ensures
            handler.last_update_time is None,
    {
        MessageHandler { last_update_time: None }
    }

    /// A snapshot arrived at `now_ms`. It is accepted, where it decoded and
    /// the debounce window has passed: it then replaces the held snapshot,
    /// and the hook is to be invoked where one is registered. Otherwise
    /// nothing changes.
    pub fn handle_latest_prices(
        &mut self,
        client: &mut MQTTClient,
        decoded: Option<Vec<CryptoCurrency>>,
        now_ms: u64,
    ) -> (outcome: MessageOutcome)
        ensures
            match decoded {
                Some(snapshot) => if spec_debounce_accepts(old(self).last_update_time, now_ms) {
                    &&& outcome == (MessageOutcome::SnapshotAccepted {
                        notify: old(client).callback_registered,
                    })
                    &&& final(self).last_update_time == Some(now_ms)
                    &&& *final(client) == (MQTTClient {
                        latest_prices: Some(snapshot),
                        ..*old(client)
                    })
                } else {
                    &&& outcome == MessageOutcome::SnapshotDebounced
                    &&& *final(self) == *old(self)
                    &&& *final(client) == *old(client)
                },
                None => {
                    &&& outcome == MessageOutcome::Dropped
                    &&& *final(self) == *old(self)
                    &&& *final(client) == *old(client)
                },
            },
    {
        let snapshot = match decoded {
            Some(snapshot) => snapshot,
            None => {
                return MessageOutcome::Dropped;
            },
        };
        let accept = match self.last_update_time {
            Some(at) => now_ms >= at && now_ms - at >= DEBOUNCE_MS,
            None => true,
        };
        if accept {
            self.last_update_time = Some(now_ms);
            client.latest_prices = Some(snapshot);
            MessageOutcome::SnapshotAccepted { notify: client.callback_registered }
        } else {
            MessageOutcome::SnapshotDebounced
        }
    }

    /// A series arrived on `topic`. Where it decoded, it is stored under the
    /// topic, in place of what was stored there.
    pub fn handle_historical_data(
        client: &mut MQTTClient,
        topic: &str,
        decoded: Option<HistoricalDataResult>,
    ) -> (outcome: MessageOutcome)
        requires
            old(client).well_formed(),
        ensures
            final(client).well_formed(),
            final(client).latest_prices == old(client).latest_prices,
            final(client).is_connected == old(client).is_connected,
            final(client).connection_attempts == old(client).connection_attempts,
            final(client).max_retry_attempts == old(client).max_retry_attempts,
            final(client).callback_registered == old(client).callback_registered,
            match decoded {
                Some(series) => {
                    &&& outcome == MessageOutcome::SeriesStored
                    &&& final(client).historical_data@ == old(client).historical_data@.insert(
                        topic@,
                        series,
                    )
                },
                None => {
                    &&& outcome == MessageOutcome::Dropped
                    &&& *final(client) == *old(client)
                },
            },
    {
        match decoded {
            Some(series) => {
                client.historical_data.insert(topic.to_owned(), series);
                MessageOutcome::SeriesStored
            },
            None => MessageOutcome::Dropped,
        }
    }

    /// An instrument arrived on its own topic. It is not stored: the full
    /// snapshot is the authority.
    pub fn handle_individual_price(decoded: &Option<CryptoCurrency>) -> (outcome: MessageOutcome)
        ensures
            outcome == if decoded is Some {
                MessageOutcome::InstrumentSeen
            } else {
                MessageOutcome::Dropped
            },
    {
        match decoded {
            Some(_) => MessageOutcome::InstrumentSeen,
            None => MessageOutcome::Dropped,
        }
    }

    /// A message arrived on `topic` at `now_ms`. It is handled by the
    /// family of its topic; a message whose decoded form is not that of the
    /// topic's family, and one on a topic of no known family, is dropped
    /// and changes nothing.
    pub fn handle_message(
        &mut self,
        client: &mut MQTTClient,
        topic: &str,
        message: Incoming,
        now_ms: u64,
    ) -> (outcome: MessageOutcome)
        requires
            old(client).well_formed(),
        ensures
            final(client).well_formed(),
            message_effect(
                *old(self),
                *old(client),
                topic@,
                message,
                now_ms,
                *final(self),
                *final(client),
                outcome,
            ),
    {
        match classify_topic(topic) {
            TopicKind::LatestPrices => match message {
                Incoming::Snapshot(decoded) => self.handle_latest_prices(client, decoded, now_ms),
                _ => MessageOutcome::Dropped,
            },
            TopicKind::Historical => match message {
                Incoming::Series(decoded) => Self::handle_historical_data(client, topic, decoded),
                _ => MessageOutcome::Dropped,
            },
            TopicKind::SymbolPrice => match message {
                Incoming::Instrument(decoded) => Self::handle_individual_price(&decoded),
                _ => MessageOutcome::Dropped,
            },
            TopicKind::Unhandled => MessageOutcome::Dropped,
        }
    }
}

/// What the event loop of a client is told by its connection.
#[derive(Debug)]
pub enum BusEvent {
    /// The broker acknowledged the connection.
    Connected,
    /// A message arrived on `topic`.
    Message { topic: String, message: Incoming },
    /// The broker closed the connection.
    Disconnected,
    /// Polling the connection failed.
    PollFailed,
    /// Anything else: a ping, an acknowledgement, an outgoing packet.
    Other,
}

/// What the event loop of a client does next.
#[derive(Debug)]
pub enum LoopAction {
    /// Make these subscriptions, then poll again.
    Subscribe { subscriptions: Vec<Subscription> },
    /// A message was handled; invoke the hook where the outcome says so,
    /// then poll again.
    Handled { outcome: MessageOutcome },
    /// Sleep for `secs` seconds, then poll again.
    Sleep { secs: u64 },
    /// Leave the loop.
    Exit,
    /// Poll again.
    Poll,
}

impl ConnectionManager {
    /// One turn of the event loop: `event` came from the connection at
    /// `now_ms`. Each event is handled by its handler, in the order in which
    /// the events arrive; the loop is left only when the retries of a failed
    /// connection are exhausted.
    pub fn handle_event(
        handler: &mut MessageHandler,
        client: &mut MQTTClient,
        event: BusEvent,
        now_ms: u64,
    ) -> (action: LoopAction)
        requires
            old(client).well_formed(),
        ensures
            final(client).well_formed(),
            match event {
                BusEvent::Connected => {
                    &&& *final(handler) == *old(handler)
                    &&& *final(client) == (MQTTClient {
                        is_connected: true,
                        connection_attempts: 0,
                        ..*old(client)
                    })
                    &&& action matches LoopAction::Subscribe { subscriptions }
                    &&& subscriptions@.len() == 2
                    &&& subscriptions@[0].topic@ == LATEST_PRICES_TOPIC@
                    &&& subscriptions@[0].qos == QoS::AtLeastOnce
                    &&& subscriptions@[1].topic@ == HISTORICAL_TOPIC_FILTER@
                    &&& subscriptions@[1].qos == QoS::AtMostOnce
                },
                BusEvent::Message { topic, message } => {
                    &&& action matches LoopAction::Handled { outcome }
                    &&& message_effect(
                        *old(handler),
                        *old(client),
                        topic@,
                        message,
                        now_ms,
                        *final(handler),
                        *final(client),
                        outcome,
                    )
                },
                BusEvent::Disconnected => {
                    &&& *final(handler) == *old(handler)
                    &&& *final(client) == (MQTTClient { is_connected: false, ..*old(client) })
                    &&& action is Poll
                },
                BusEvent::PollFailed => {
                    &&& *final(handler) == *old(handler)
                    &&& *final(client) == (MQTTClient {
                        is_connected: false,
                        connection_attempts: spec_attempts_after_error(
                            old(client).connection_attempts,
                        ),
                        ..*old(client)
                    })
                    &&& match spec_reconnect(old(client).connection_attempts) {
                        Reconnect::RetryAfter { secs } => action == (LoopAction::Sleep { secs }),
                        Reconnect::GiveUp => action is Exit,
                    }
                },
                BusEvent::Other => {
                    &&& *final(handler) == *old(handler)
                    &&& *final(client) == *old(client)
                    &&& action is Poll
                },
            },
    {
        match event {
            BusEvent::Connected => LoopAction::Subscribe {
                subscriptions: Self::handle_connection_success(client),
            },
            BusEvent::Message { topic, message } => LoopAction::Handled {
                outcome: handler.handle_message(client, topic.as_str(), message, now_ms),
            },
            BusEvent::Disconnected => {
                Self::handle_disconnect(client);
                LoopAction::Poll
            },
            BusEvent::PollFailed => match Self::handle_connection_error(client) {
                Reconnect::RetryAfter { secs } => LoopAction::Sleep { secs },
                Reconnect::GiveUp => LoopAction::Exit,
            },
            BusEvent::Other => LoopAction::Poll,
        }
    }
}

/// A series that is published for a symbol and a timeframe arrives on a
/// topic that every client files under the series, and a client that has
/// stored it there finds it again under that symbol, in whatever case the
/// symbol is written, and that timeframe.
pub proof fn lemma_published_series_is_found(
    held: Map<Seq<char>, HistoricalDataResult>,
    symbol: Seq<char>,
    asked: Seq<char>,
    timeframe: Seq<char>,
    payload: Seq<char>,
    series: HistoricalDataResult,
)
    requires
        is_level(symbol),
        is_level(timeframe),
        ascii_upper(asked) == ascii_upper(symbol),
    ensures
        spec_history_publication(symbol, timeframe, payload).retain,
        spec_classify_topic(spec_history_publication(symbol, timeframe, payload).topic)
            == TopicKind::Historical,
        held.insert(
            spec_history_publication(symbol, timeframe, payload).topic,
            series,
        ).contains_key(spec_historical_topic(asked, timeframe)),
        held.insert(spec_history_publication(symbol, timeframe, payload).topic, series)[spec_historical_topic(
            asked,
            timeframe,
        )] == series,
{
    lemma_historical_topic_round_trip(symbol, timeframe);
}

/// When the last snapshot was accepted, once snapshots have arrived at the
/// times `times`, in this order, at a handler that had last accepted one at
/// `start`.
pub open spec fn last_accept_after(start: Option<u64>, times: Seq<u64>) -> Option<u64>
    decreases times.len(),
{
    if times.len() == 0 {
        start
    } else {
        spec_debounce_next(last_accept_after(start, times.drop_last()), times.last())
    }
}

/// Whether the `i`-th of the snapshots that arrive at `times` is accepted.
pub open spec fn accepted_at(start: Option<u64>, times: Seq<u64>, i: int) -> bool {
    spec_debounce_accepts(last_accept_after(start, times.take(i)), times[i])
}

/// Once a snapshot has been accepted, the time of the last acceptance
/// never falls below its arrival.
pub proof fn lemma_last_accept_bound(start: Option<u64>, times: Seq<u64>, i: int, k: int)
    requires
        0 <= i < k <= times.len(),
        accepted_at(start, times, i),
    ensures
        last_accept_after(start, times.take(k)) matches Some(at) && at >= times[i],
    decreases k,
{
    let upto = times.take(k);
    assert(upto.drop_last() =~= times.take(k - 1));
    assert(upto.last() == times[k - 1]);
    if k > i + 1 {
        lemma_last_accept_bound(start, times, i, k - 1);
    }
}

/// Of the snapshots that arrive at a client, no two that are less than the
/// debounce window apart are both accepted; so no two of them both invoke
/// the hook.
pub proof fn lemma_accepted_snapshots_are_spaced(
    start: Option<u64>,
    times: Seq<u64>,
    i: int,
    j: int,
)
    requires
        0 <= i < j < times.len(),
        accepted_at(start, times, i),
        accepted_at(start, times, j),
    ensures
        times[j] - times[i] >= DEBOUNCE_MS,
{
    lemma_last_accept_bound(start, times, i, j);
}

} // verus!

use coin_crab::api::AppState;
use coin_crab::cache::{age, logo_is_served, HistoryCache, LatestCache, LogoCache};
use coin_crab::client::{
    BusEvent, ConnectionManager, Incoming, LoopAction, MQTTClient, MessageHandler,
    MessageOutcome,
};
use coin_crab::consumer::{get_historical_data as client_history, HistoryStep};
use coin_crab::handlers::{
    get_crypto_logo, get_historical_data, get_prices, health_check, logo_fetched, logo_url,
    LogoLookup, LogoReply, LogoResponse, LOGO_CACHE_CONTROL, LOGO_CONTENT_TYPE,
};
use coin_crab::listings::{
    fetch_data_periodically, poll_listings, status_error, FetchError, API_KEY_HEADER,
    LISTINGS_CONVERT, LISTINGS_LIMIT, LISTINGS_URL,
};
use coin_crab::publisher::{
    publish_crypto_data_to_mqtt, publish_empty_retained_message, publish_historical_data_to_mqtt,
    Publication, QoS, SerializedInstrument,
};
use coin_crab::request_handler::{
    accept_request, parse_request, RequestAction, RequestHandler, RequestKind,
};
use coin_crab::store::KeyedStore;
use coin_crab::sweeper::{sweep_publications, sweep_symbol, Sweeper, SWEEP_WARMUP_SECS};
use coin_crab::text::{
    chars_of, decimal_string, parse_unsigned, str_eq, string_of, to_ascii_upper,
};
use coin_crab::topics::{
    cache_key, classify_topic, historical_topic, is_price_topic, normalize_symbol,
    parse_historical_topic, price_topic, request_payload, TopicKind, HISTORICAL_TOPIC_FILTER,
    LATEST_PRICES_TOPIC,
};
use coin_crab::types::{
    CryptoCurrency, HistoricalDataPoint, HistoricalDataResult, Quote, Real, UsdQuote,
};

fn num(x: f64) -> Real {
    Real::from_bits(x.to_bits())
}

fn value(r: Real) -> f64 {
    f64::from_bits(r.to_bits())
}

fn instrument(id: i32, symbol: &str, price: f64) -> CryptoCurrency {
    CryptoCurrency {
        id,
        name: symbol.to_string(),
        symbol: symbol.to_string(),
        quote: Quote {
            usd: UsdQuote {
                price: num(price),
                percent_change_1h: num(0.5),
                percent_change_24h: num(2.5),
                percent_change_7d: num(10.0),
                market_cap: num(900000000000.0),
                volume_24h: num(50000000000.0),
                last_updated: "2024-01-01T00:00:00Z".to_string(),
            },
        },
    }
}

fn series(symbol: &str, timeframe: &str, price: f64) -> HistoricalDataResult {
    HistoricalDataResult {
        success: true,
        data: vec![HistoricalDataPoint { timestamp: 1704067200, price: num(price), volume: None }],
        error: None,
        symbol: Some(symbol.to_string()),
        timeframe: Some(timeframe.to_string()),
    }
}

fn failed(symbol: &str, timeframe: &str) -> HistoricalDataResult {
    HistoricalDataResult::failure(symbol, timeframe, "HTTP error: 500 Internal Server Error")
}

/// A stand-in for the broker: it keeps the last retained payload of each
/// topic, forgets a topic on an empty retained payload, and hands a new
/// subscriber what it keeps for the topics that its filter matches.
struct RetainedBus {
    retained: Vec<(String, String)>,
}

impl RetainedBus {
    fn new() -> Self {
        RetainedBus { retained: Vec::new() }
    }

    fn publish(&mut self, publication: &Publication) {
        if !publication.retain {
            return;
        }
        self.retained.retain(|(topic, _)| *topic != publication.topic);
        if !publication.payload.is_empty() {
            self.retained.push((publication.topic.clone(), publication.payload.clone()));
        }
    }

    fn subscribe(&self, filter: &str) -> Vec<(String, String)> {
        let matches = |topic: &str| {
            let wanted: Vec<&str> = filter.split('/').collect();
            let given: Vec<&str> = topic.split('/').collect();
            wanted.len() == given.len()
                && wanted.iter().zip(given.iter()).all(|(w, g)| *w == "+" || w == g)
        };
        self.retained.iter().filter(|(topic, _)| matches(topic)).cloned().collect()
    }
}

/// A new client connects to the bus: it subscribes as the library says and
/// handles what is retained for it. Payloads of series are looked up in
/// `series_by_payload`, which stands for decoding.
fn connect_fresh_client(
    bus: &RetainedBus,
    series_by_payload: &[(&str, HistoricalDataResult)],
) -> MQTTClient {
    let mut client = MQTTClient::new();
    let mut handler = MessageHandler::new();
    let subscriptions = match ConnectionManager::handle_event(
        &mut handler,
        &mut client,
        BusEvent::Connected,
        0,
    ) {
        LoopAction::Subscribe { subscriptions } => subscriptions,
        _ => panic!("expected subscriptions"),
    };
    for subscription in subscriptions {
        for (topic, payload) in bus.subscribe(&subscription.topic) {
            let decoded = series_by_payload
                .iter()
                .find(|(text, _)| *text == payload)
                .map(|(_, series)| series.clone());
            let event = BusEvent::Message { topic, message: Incoming::Series(decoded) };
            ConnectionManager::handle_event(&mut handler, &mut client, event, 1);
        }
    }
    client
}

#[test]
fn published_series_reaches_a_late_joiner() {
    let mut bus = RetainedBus::new();
    let fetched = series("ETH", "7d", 3000.0);
    let publication =
        publish_historical_data_to_mqtt("eth", "7d", Some("eth-7d".to_string())).unwrap();
    bus.publish(&publication);

    let client = connect_fresh_client(&bus, &[("eth-7d", fetched.clone())]);
    let got = client.get_historical_data("ETH", "7d").unwrap();
    assert!(got.success);
    assert_eq!(got.data, fetched.data);
    assert_eq!(got.symbol, fetched.symbol);
    assert_eq!(got.timeframe, fetched.timeframe);
    assert_eq!(got.error, None);
    assert!(client.get_historical_data("ETH", "30d").is_none());
}

#[test]
fn cleared_topic_reaches_no_late_joiner() {
    let mut bus = RetainedBus::new();
    let btc = series("BTC", "1h", 50000.0);
    let eth = series("ETH", "1h", 3000.0);
    bus.publish(&publish_historical_data_to_mqtt("BTC", "1h", Some("btc-1h".to_string())).unwrap());
    bus.publish(&publish_historical_data_to_mqtt("ETH", "1h", Some("eth-1h".to_string())).unwrap());
    bus.publish(&publish_historical_data_to_mqtt("XMR", "1h", Some("xmr-1h".to_string())).unwrap());
    let decode = [("btc-1h", btc), ("eth-1h", eth), ("xmr-1h", series("XMR", "1h", 150.0))];

    let before = connect_fresh_client(&bus, &decode);
    assert!(before.get_historical_data("BTC", "1h").is_some());

    bus.publish(&publish_empty_retained_message("crypto/historical/BTC/1h"));
    let after = connect_fresh_client(&bus, &decode);
    assert!(after.get_historical_data("BTC", "1h").is_none());
    assert!(after.get_historical_data("ETH", "1h").is_some());

    // The first step of the sweep clears the hourly series of the swept
    // symbols, and of no other symbol.
    let mut sweeper = Sweeper::new();
    for publication in sweeper.next_step().clear {
        bus.publish(&publication);
    }
    let swept = connect_fresh_client(&bus, &decode);
    assert!(swept.get_historical_data("ETH", "1h").is_none());
    assert!(swept.get_historical_data("XMR", "1h").is_some());
}

#[test]
fn malformed_request_is_ignored() {
    let mut handler = RequestHandler::new();
    let cache = HistoryCache::new();
    for payload in [
        &b"not-a-request"[..],
        b"",
        b":",
        b"BTC:",
        b":24h",
        b"BTC 24h",
        b"BT C:24h",
        b"BTC:24 h",
        b"BTC:24h\n",
        b"\tBTC:24h",
        b"BTC\xE2\x82\xAC:24h",
        b"\xff\xfe",
    ] {
        let action = handler.on_request(&cache, payload, 0);
        assert_eq!(action.action_kind(), RequestKind::Ignore, "payload {:?}", payload);
        assert!(accept_request(payload).is_none());
    }
    assert_eq!(handler.in_flight.len(), 0);
}

#[test]
fn request_is_split_at_the_first_colon() {
    assert_eq!(
        parse_request(b"BTC:24h:extra"),
        Some(("BTC".to_string(), "24h:extra".to_string()))
    );
    assert_eq!(parse_request(b"BTC:"), Some(("BTC".to_string(), String::new())));
    assert_eq!(parse_request(b":24h"), Some((String::new(), "24h".to_string())));
    assert_eq!(parse_request(b":"), Some((String::new(), String::new())));
    assert_eq!(parse_request(b"BTC 24h:1d"), Some(("BTC 24h".to_string(), "1d".to_string())));
    assert_eq!(parse_request(b"BTC"), None);
    assert_eq!(parse_request(b""), None);
    assert_eq!(parse_request(b"BTC\xC3\xA9:24h"), None);
    assert_eq!(
        accept_request(b"BTC:24h:extra"),
        Some(("BTC".to_string(), "24h:extra".to_string()))
    );
    assert_eq!(accept_request(b"eth:7d"), Some(("eth".to_string(), "7d".to_string())));
}

#[test]
fn request_payload_reads_back() {
    for (symbol, timeframe) in [("btc", "24h"), ("ETH", "7d"), ("1inch", "all"), ("a", "b:c")] {
        let payload = request_payload(symbol, timeframe);
        assert_eq!(payload, cache_key(symbol, timeframe));
        assert_eq!(
            accept_request(payload.as_bytes()),
            Some((symbol.to_uppercase(), timeframe.to_string()))
        );
    }
}

#[test]
fn concurrent_requests_are_coalesced() {
    let mut handler = RequestHandler::new();
    let mut cache = HistoryCache::new();

    let mut fetches = 0;
    let mut coalesced = 0;
    for payload in [&b"ETH:7d"[..], b"eth:7d", b"ETH:7d", b"Eth:7d", b"ETH:7d"] {
        match handler.on_request(&cache, payload, 100) {
            RequestAction::Fetch { symbol, timeframe } => {
                fetches += 1;
                assert_eq!(symbol, "ETH");
                assert_eq!(timeframe, "7d");
            }
            RequestAction::Coalesced => coalesced += 1,
            _ => panic!("unexpected action"),
        }
    }
    assert_eq!(fetches, 1);
    assert_eq!(coalesced, 4);
    assert_eq!(handler.in_flight.len(), 1);

    // Another key is fetched on its own.
    assert_eq!(handler.on_request(&cache, b"ETH:30d", 100).action_kind(), RequestKind::Fetch);
    assert_eq!(handler.on_request(&cache, b"BTC:7d", 100).action_kind(), RequestKind::Fetch);
    assert_eq!(handler.in_flight.len(), 3);

    let publish = handler.on_fetch_complete(&mut cache, "ETH", "7d", series("ETH", "7d", 3000.0), 110);
    assert_eq!(value(publish.unwrap().data[0].price), 3000.0);
    assert_eq!(handler.in_flight.len(), 2);
    assert_eq!(cache.entries.len(), 1);
    assert_eq!(cache.get("eth", "7d").unwrap().inserted_at, 110);

    // The cache now answers, as long as it is fresh: 7d is refreshed every 7200 s.
    match handler.on_request(&cache, b"ETH:7d", 7309) {
        RequestAction::Republish { symbol, timeframe, series } => {
            assert_eq!(symbol, "ETH");
            assert_eq!(timeframe, "7d");
            assert_eq!(value(series.data[0].price), 3000.0);
        }
        _ => panic!("expected the cached series"),
    }
    assert_eq!(handler.on_request(&cache, b"ETH:7d", 7310).action_kind(), RequestKind::Fetch);
}

#[test]
fn failed_fetch_leaves_no_trace() {
    let mut handler = RequestHandler::new();
    let mut cache = HistoryCache::new();
    assert_eq!(handler.on_request(&cache, b"BTC:1h", 0).action_kind(), RequestKind::Fetch);
    let publish = handler.on_fetch_complete(&mut cache, "BTC", "1h", failed("BTC", "1h"), 5);
    assert!(publish.is_none());
    assert_eq!(cache.entries.len(), 0);
    assert_eq!(handler.in_flight.len(), 0);
    // The next request starts a new fetch.
    assert_eq!(handler.on_request(&cache, b"BTC:1h", 6).action_kind(), RequestKind::Fetch);
}

#[test]
fn history_round_trip_serves_every_client() {
    let mut handler = RequestHandler::new();
    let mut cache = HistoryCache::new();
    let mut first = MQTTClient::new();
    let mut second = MQTTClient::new();

    let request = match client_history(&first, "ETH", "7d", false, 0) {
        HistoryStep::Request { publication } => publication,
        _ => panic!("expected a request"),
    };
    assert_eq!(request.topic, "crypto/requests/historical");

    let (symbol, timeframe) = match handler.on_request(&cache, request.payload.as_bytes(), 0) {
        RequestAction::Fetch { symbol, timeframe } => (symbol, timeframe),
        _ => panic!("expected a fetch"),
    };
    let fetched = handler
        .on_fetch_complete(&mut cache, &symbol, &timeframe, series("ETH", "7d", 3000.0), 1)
        .unwrap();
    let publication =
        publish_historical_data_to_mqtt(&symbol, &timeframe, Some("payload".to_string())).unwrap();
    assert_eq!(publication.topic, "crypto/historical/ETH/7d");
    assert!(publication.retain);
    assert_eq!(publication.qos, QoS::AtMostOnce);

    for client in [&mut first, &mut second] {
        let outcome = MessageHandler::new().handle_message(
            client,
            &publication.topic,
            Incoming::Series(Some(fetched.clone())),
            1500,
        );
        assert_eq!(outcome, MessageOutcome::SeriesStored);
        match client_history(client, "ETH", "7d", true, 1500) {
            HistoryStep::Found { series } => assert_eq!(value(series.data[0].price), 3000.0),
            _ => panic!("expected the series"),
        }
    }
}

#[test]
fn sweep_clears_each_timeframe_in_turn() {
    assert_eq!(SWEEP_WARMUP_SECS, 300);
    let mut sweeper = Sweeper::new();
    let timeframes = ["1h", "24h", "7d", "30d", "90d", "365d"];
    let rests = [300u64, 3600, 7200, 21600, 86400, 86400];
    let symbols = ["BTC", "ETH", "ADA", "SOL", "DOT", "MATIC", "LINK", "XRP", "LTC", "BCH"];

    for round in 0..2 {
        for (i, timeframe) in timeframes.iter().enumerate() {
            assert_eq!(sweeper.position, i, "round {}", round);
            let step = sweeper.next_step();
            assert_eq!(step.sleep_secs, rests[i]);
            assert_eq!(step.clear.len(), 10);
            for (j, publication) in step.clear.iter().enumerate() {
                assert_eq!(
                    publication.topic,
                    format!("crypto/historical/{}/{}", symbols[j], timeframe)
                );
                assert_eq!(publication.payload, "");
                assert!(publication.retain);
                assert_eq!(publication.qos, QoS::AtLeastOnce);
            }
        }
        assert_eq!(sweeper.position, 0);
    }
    for (j, symbol) in symbols.iter().enumerate() {
        assert_eq!(sweep_symbol(j), *symbol);
    }
    assert_eq!(sweep_publications("1h")[0].topic, "crypto/historical/BTC/1h");
}

#[test]
fn snapshot_is_published_whole_then_by_instrument() {
    let instruments = vec![
        SerializedInstrument { symbol: "BTC".to_string(), payload: Some("{btc}".to_string()) },
        SerializedInstrument { symbol: "eth".to_string(), payload: None },
        SerializedInstrument { symbol: "ADA".to_string(), payload: Some("{ada}".to_string()) },
    ];
    let publications = publish_crypto_data_to_mqtt(&Some("[all]".to_string()), &instruments);
    assert_eq!(publications.len(), 3);
    assert_eq!(publications[0].topic, "crypto/prices/latest");
    assert_eq!(publications[0].payload, "[all]");
    assert_eq!(publications[1].topic, "crypto/prices/BTC");
    assert_eq!(publications[1].payload, "{btc}");
    assert_eq!(publications[2].topic, "crypto/prices/ADA");
    assert_eq!(publications[2].payload, "{ada}");
    for publication in &publications {
        assert!(publication.retain);
        assert_eq!(publication.qos, QoS::AtLeastOnce);
    }

    assert!(publish_crypto_data_to_mqtt(&None, &instruments).is_empty());
    let only_latest = publish_crypto_data_to_mqtt(&Some("[]".to_string()), &Vec::new());
    assert_eq!(only_latest.len(), 1);
    assert_eq!(only_latest[0].topic, LATEST_PRICES_TOPIC);
}

#[test]
fn series_is_published_retained_at_most_once() {
    let publication =
        publish_historical_data_to_mqtt("btc", "24h", Some("{series}".to_string())).unwrap();
    assert_eq!(publication.topic, "crypto/historical/BTC/24h");
    assert_eq!(publication.payload, "{series}");
    assert_eq!(publication.qos, QoS::AtMostOnce);
    assert!(publication.retain);
    assert!(publish_historical_data_to_mqtt("btc", "24h", None).is_none());
}

#[test]
fn clearing_publishes_an_empty_retained_payload() {
    let publication = publish_empty_retained_message("crypto/historical/BTC/1h");
    assert_eq!(publication.topic, "crypto/historical/BTC/1h");
    assert!(publication.payload.is_empty());
    assert!(publication.retain);
    assert_eq!(publication.qos, QoS::AtLeastOnce);
}

#[test]
fn topics_are_classified() {
    assert_eq!(classify_topic("crypto/prices/latest"), TopicKind::LatestPrices);
    assert_eq!(classify_topic("crypto/prices/BTC"), TopicKind::SymbolPrice);
    assert_eq!(classify_topic("crypto/prices/LATEST"), TopicKind::SymbolPrice);
    assert_eq!(classify_topic("crypto/prices/"), TopicKind::Unhandled);
    assert_eq!(classify_topic("crypto/prices/BTC/x"), TopicKind::Unhandled);
    assert_eq!(classify_topic("crypto/prices"), TopicKind::Unhandled);
    assert_eq!(classify_topic("crypto/historical/BTC/24h"), TopicKind::Historical);
    assert_eq!(classify_topic("crypto/historical/btc/anything"), TopicKind::Historical);
    assert_eq!(classify_topic(HISTORICAL_TOPIC_FILTER), TopicKind::Historical);
    assert_eq!(classify_topic("crypto/historical/BTC"), TopicKind::Unhandled);
    assert_eq!(classify_topic("crypto/historical/BTC/"), TopicKind::Unhandled);
    assert_eq!(classify_topic("crypto/historical//24h"), TopicKind::Unhandled);
    assert_eq!(classify_topic("crypto/historical/BTC/24h/"), TopicKind::Unhandled);
    assert_eq!(classify_topic("crypto/historical/"), TopicKind::Unhandled);
    assert_eq!(classify_topic("crypto/requests/historical"), TopicKind::Unhandled);
    assert_eq!(classify_topic(""), TopicKind::Unhandled);
    assert_eq!(classify_topic("Crypto/prices/latest"), TopicKind::Unhandled);
    assert!(is_price_topic("crypto/prices/latest"));
    assert!(!is_price_topic("crypto/historical/BTC/24h"));
}

#[test]
fn historical_topic_reads_back() {
    for (symbol, timeframe) in [("btc", "24h"), ("ETH", "7d"), ("McAfee", "1y"), ("x", "y")] {
        let topic = historical_topic(symbol, timeframe);
        assert_eq!(
            parse_historical_topic(&topic),
            Some((symbol.to_uppercase(), timeframe.to_string()))
        );
        assert_eq!(classify_topic(&topic), TopicKind::Historical);
        assert_eq!(classify_topic(&price_topic(symbol)), TopicKind::SymbolPrice);
    }
    assert_eq!(parse_historical_topic("crypto/historical/BTC"), None);
    assert_eq!(parse_historical_topic("crypto/prices/BTC/24h"), None);
    assert_eq!(parse_historical_topic("crypto/historical/a/b/c"), None);
}

#[test]
fn symbols_are_normalised_to_upper_case_ascii() {
    assert_eq!(normalize_symbol("btc"), "BTC");
    assert_eq!(normalize_symbol("Btc"), "BTC");
    assert_eq!(normalize_symbol("BTC"), "BTC");
    assert_eq!(normalize_symbol("1inch"), "1INCH");
    assert_eq!(normalize_symbol(""), "");
    assert_eq!(normalize_symbol("az{`@["), "AZ{`@[");
    assert_eq!(normalize_symbol("\u{e9}t\u{e9}"), "\u{e9}T\u{e9}");
    assert_eq!(to_ascii_upper("matic"), "matic".to_ascii_uppercase());
    assert_eq!(normalize_symbol(&normalize_symbol("dot")), normalize_symbol("dot"));
    assert_eq!(cache_key("btc", "24h"), "BTC:24h");
    assert_eq!(cache_key("btc", "24H"), "BTC:24H");
}

#[test]
fn text_helpers_agree_with_std() {
    for text in ["", "a", "crypto/prices/latest", "\u{e9}\u{20ac}\u{1f980}", "a\u{0}b"] {
        assert_eq!(chars_of(text), text.chars().collect::<Vec<char>>());
        assert_eq!(string_of(&chars_of(text)), text);
        assert!(str_eq(text, text));
        assert!(!str_eq(text, "other"));
    }
    assert!(!str_eq("ab", "abc"));
    assert!(!str_eq("abc", "abd"));
    for n in [0u64, 1, 9, 10, 99, 100, 1883, 65535, u64::MAX] {
        assert_eq!(decimal_string(n), n.to_string());
        assert_eq!(parse_unsigned(&n.to_string(), u64::MAX), Some(n));
    }
    assert_eq!(parse_unsigned("65535", 65535), Some(65535));
    assert_eq!(parse_unsigned("65536", 65535), None);
    assert_eq!(parse_unsigned("+7", 10), Some(7));
    assert_eq!(parse_unsigned("++7", 10), None);
    assert_eq!(parse_unsigned("7+", 10), None);
    assert_eq!(parse_unsigned("000", 0), Some(0));
    assert_eq!(parse_unsigned("", 10), None);
    assert_eq!(parse_unsigned("18446744073709551616", u64::MAX), None);
}

#[test]
fn keyed_store_behaves_as_a_map() {
    let mut store: KeyedStore<u32> = KeyedStore::new();
    assert_eq!(store.len(), 0);
    assert_eq!(store.get("a"), None);
    assert!(!store.contains_key("a"));

    store.insert("a".to_string(), 1);
    store.insert("b".to_string(), 2);
    store.insert("a".to_string(), 3);
    assert_eq!(store.len(), 2);
    assert_eq!(store.get("a"), Some(&3));
    assert_eq!(store.get("b"), Some(&2));
    assert_eq!(store.get("A"), None);

    assert_eq!(store.remove("c"), None);
    assert_eq!(store.remove("a"), Some(3));
    assert_eq!(store.len(), 1);
    assert!(!store.contains_key("a"));
    assert_eq!(store.get("b"), Some(&2));
    assert_eq!(store.remove("b"), Some(2));
    assert_eq!(store.len(), 0);
}

#[test]
fn poll_outcomes_are_classified() {
    assert_eq!(status_error(200), None);
    assert_eq!(status_error(299), None);
    assert_eq!(status_error(429), Some(FetchError::RateLimited));
    assert_eq!(status_error(401), Some(FetchError::AuthFailed));
    assert_eq!(status_error(500), Some(FetchError::TransientHttp));
    assert_eq!(status_error(503), Some(FetchError::TransientHttp));
    assert_eq!(status_error(599), Some(FetchError::TransientHttp));
    assert_eq!(status_error(600), Some(FetchError::OtherHttp));
    assert_eq!(status_error(404), Some(FetchError::OtherHttp));
    assert_eq!(status_error(301), Some(FetchError::OtherHttp));
    assert_eq!(status_error(199), Some(FetchError::OtherHttp));

    assert_eq!(poll_listings(None, None).err(), Some(FetchError::TransientHttp));
    assert_eq!(
        poll_listings(None, Some(vec![instrument(1, "BTC", 1.0)])).err(),
        Some(FetchError::TransientHttp)
    );
    assert_eq!(poll_listings(Some(200), None).err(), Some(FetchError::ParseError));
    assert_eq!(poll_listings(Some(429), None).err(), Some(FetchError::RateLimited));
    assert_eq!(
        poll_listings(Some(401), Some(vec![instrument(1, "BTC", 1.0)])).err(),
        Some(FetchError::AuthFailed)
    );
    let ok = poll_listings(Some(200), Some(vec![instrument(1, "BTC", 50000.0)])).unwrap();
    assert_eq!(ok.len(), 1);
    assert_eq!(ok[0].symbol, "BTC");

    assert_eq!(
        LISTINGS_URL,
        "https://pro-api.coinmarketcap.com/v1/cryptocurrency/listings/latest"
    );
    assert_eq!(LISTINGS_LIMIT, "100");
    assert_eq!(LISTINGS_CONVERT, "USD");
    assert_eq!(API_KEY_HEADER, "X-CMC_PRO_API_KEY");
}

#[test]
fn failed_poll_keeps_the_last_good_snapshot() {
    let mut cache = LatestCache::new(1000);
    let published =
        fetch_data_periodically(&mut cache, Ok(vec![instrument(1, "BTC", 50000.0)]), 1010);
    assert_eq!(published.unwrap()[0].symbol, "BTC");
    assert_eq!(cache.last_fetch, 1010);
    assert_eq!(cache.snapshot.as_ref().unwrap()[0].symbol, "BTC");

    for error in [
        FetchError::RateLimited,
        FetchError::AuthFailed,
        FetchError::TransientHttp,
        FetchError::ParseError,
        FetchError::OtherHttp,
    ] {
        let outcome = fetch_data_periodically(&mut cache, Err(error), 2000);
        assert_eq!(outcome.err(), Some(error));
        assert_eq!(cache.last_fetch, 1010);
        assert_eq!(value(cache.snapshot.as_ref().unwrap()[0].quote.usd.price), 50000.0);
    }
}

#[test]
fn test_cached_status_logic() {
    let mut cache = LatestCache::new(0);
    cache.store(vec![instrument(1, "BTC", 50000.0)], 100);

    let cached_fresh = cache.is_cached(110);
    let cached_old = cache.is_cached(160);

    assert!(!cached_fresh);
    assert!(cached_old);
    assert!(!cache.is_cached(130));
    assert!(cache.is_cached(131));
    assert!(!cache.is_cached(50));
    assert_eq!(age(100, 160), 60);
    assert_eq!(age(100, 50), 0);
    assert!(!LatestCache::new(0).is_cached(1000));
}

#[test]
fn test_get_prices_handler() {
    let mut state = AppState::new("test_api_key".to_string(), 300, 0);
    let none = get_prices(&state.cache, 10, "SystemTime(0)".to_string());
    assert!(none.data.is_empty());
    assert_eq!(none.last_updated, "Never");
    assert!(!none.cached);

    state.cache.store(vec![instrument(1, "BTC", 50000.0)], 100);
    assert!(state.cache.snapshot.is_some());
    assert_eq!(state.cache.snapshot.as_ref().unwrap().len(), 1);
    assert_eq!(state.cache.snapshot.as_ref().unwrap()[0].symbol, "BTC");

    let fresh = get_prices(&state.cache, 130, "SystemTime(100)".to_string());
    assert_eq!(fresh.data.len(), 1);
    assert_eq!(fresh.data[0].symbol, "BTC");
    assert_eq!(fresh.last_updated, "SystemTime(100)");
    assert!(!fresh.cached);
    let old = get_prices(&state.cache, 131, "SystemTime(100)".to_string());
    assert!(old.cached);
}

#[test]
fn test_health_check_response() {
    let health = health_check(1704067200);
    assert_eq!(health.status, "ok");
    assert_eq!(health.timestamp, 1704067200);
}

#[test]
fn fetched_series_is_cached_only_on_success() {
    let mut cache = HistoryCache::new();
    assert!(!get_historical_data(&mut cache, "btc", "24h", &failed("btc", "24h"), 5));
    assert_eq!(cache.entries.len(), 0);
    assert!(cache.get("BTC", "24h").is_none());

    assert!(get_historical_data(&mut cache, "btc", "24h", &series("BTC", "24h", 45000.0), 10));
    assert_eq!(cache.entries.len(), 1);
    let entry = cache.get("BTC", "24h").unwrap();
    assert_eq!(entry.inserted_at, 10);
    assert_eq!(value(entry.series.data[0].price), 45000.0);
    assert!(cache.entries.contains_key("BTC:24h"));

    assert!(cache.get_fresh("btc", "24h", 3609).is_some());
    assert!(cache.get_fresh("btc", "24h", 3610).is_none());
    assert!(cache.get_fresh("btc", "24h", 0).is_some());
    assert!(cache.get_fresh("btc", "7d", 11).is_none());
    // Nothing is evicted.
    assert!(cache.get("btc", "24h").is_some());
}

#[test]
fn logo_is_served_from_the_cache_for_a_day() {
    assert_eq!(LOGO_CONTENT_TYPE, "image/png");
    assert_eq!(LOGO_CACHE_CONTROL, "public, max-age=86400");
    assert_eq!(logo_url(1), "https://s2.coinmarketcap.com/static/img/coins/64x64/1.png");

    let mut state = AppState::new("key".to_string(), 900, 0);
    match get_crypto_logo(&mut state, "btc", 0) {
        LogoLookup::Unknown { message } => {
            assert_eq!(message, "No logo mapping found for symbol: BTC")
        }
        _ => panic!("expected an unknown symbol"),
    }

    state.cmc_mapping.insert("BTC".to_string(), 1);
    let (symbol, url) = match get_crypto_logo(&mut state, "btc", 0) {
        LogoLookup::Fetch { symbol, url } => (symbol, url),
        _ => panic!("expected a fetch"),
    };
    assert_eq!(symbol, "BTC");
    assert_eq!(url, "https://s2.coinmarketcap.com/static/img/coins/64x64/1.png");

    for (reply, want) in [
        (LogoReply::Failed, "Failed to fetch logo"),
        (LogoReply::Answered { status: 200, body: None }, "Failed to read image data"),
    ] {
        match logo_fetched(&mut state.logo_cache, &symbol, reply, 10) {
            LogoResponse::ServerError { message } => assert_eq!(message, want),
            _ => panic!("expected a server error"),
        }
    }
    match logo_fetched(
        &mut state.logo_cache,
        &symbol,
        LogoReply::Answered { status: 404, body: Some(vec![1]) },
        10,
    ) {
        LogoResponse::NotFound { message } => assert_eq!(message, "Logo not found"),
        _ => panic!("expected not found"),
    }
    assert_eq!(state.logo_cache.entries.len(), 0);

    match logo_fetched(
        &mut state.logo_cache,
        &symbol,
        LogoReply::Answered { status: 200, body: Some(vec![0x89, 0x50, 0x4E, 0x47]) },
        10,
    ) {
        LogoResponse::Image { image } => assert_eq!(image, vec![0x89, 0x50, 0x4E, 0x47]),
        _ => panic!("expected an image"),
    }
    assert_eq!(state.logo_cache.entries.len(), 1);

    match get_crypto_logo(&mut state, "Btc", 10 + 86399) {
        LogoLookup::Cached { image } => assert_eq!(image, vec![0x89, 0x50, 0x4E, 0x47]),
        _ => panic!("expected the cached image"),
    }
    assert_eq!(state.logo_cache.entries.len(), 1);

    // After 24 hours the entry is evicted and the image is fetched again.
    match get_crypto_logo(&mut state, "BTC", 10 + 86400) {
        LogoLookup::Fetch { url, .. } => assert!(url.ends_with("/1.png")),
        _ => panic!("expected a fetch"),
    }
    assert_eq!(state.logo_cache.entries.len(), 0);
}

#[test]
fn logo_cache_evicts_on_read() {
    let mut cache = LogoCache::new();
    cache.insert("eth", vec![1, 2, 3], 100);
    assert_eq!(cache.lookup("ETH", 100), Some(vec![1, 2, 3]));
    assert_eq!(cache.lookup("eth", 100 + 86399), Some(vec![1, 2, 3]));
    assert_eq!(cache.lookup("btc", 100), None);
    assert_eq!(cache.entries.len(), 1);
    assert_eq!(cache.lookup("eth", 100 + 86400), None);
    assert_eq!(cache.entries.len(), 0);
}

#[test]
fn logo_stored_after_now_counts_as_expired() {
    assert!(logo_is_served(100, 100));
    assert!(logo_is_served(100, 100 + 86399));
    assert!(!logo_is_served(100, 100 + 86400));
    assert!(!logo_is_served(100, 99));
    assert!(!logo_is_served(u64::MAX, 0));
    assert!(!logo_is_served(0, u64::MAX));

    // The clock was set back after the logo was stored.
    let mut cache = LogoCache::new();
    cache.insert("eth", vec![1, 2, 3], 100);
    assert_eq!(cache.lookup("eth", 50), None);
    assert_eq!(cache.entries.len(), 0);
}

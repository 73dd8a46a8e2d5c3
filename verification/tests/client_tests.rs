use std::collections::HashMap;

use coin_crab::backoff::{backoff_delay_secs, MAX_BACKOFF_SECS, MAX_RECONNECT_ATTEMPTS};
use coin_crab::client::{
    BusEvent, ConnectionManager, Incoming, LoopAction, MQTTClient, MessageHandler,
    MessageOutcome, Reconnect, DEBOUNCE_MS, MAX_RETRY_ATTEMPTS,
};
use coin_crab::config::Config;
use coin_crab::consumer::{
    get_crypto_data, get_historical_data, invalid_argument, return_mqtt_error, startup_wait,
    HistoryStep, WaitStep,
};
use coin_crab::publisher::QoS;
use coin_crab::topics::historical_topic;
use coin_crab::types::{
    CryptoCurrency, HistoricalDataPoint, HistoricalDataResult, Quote, Real, UsdQuote,
};

fn num(x: f64) -> Real {
    Real::from_bits(x.to_bits())
}

fn value(r: Real) -> f64 {
    f64::from_bits(r.to_bits())
}

fn instrument(id: i32, name: &str, symbol: &str, price: f64) -> CryptoCurrency {
    CryptoCurrency {
        id,
        name: name.to_string(),
        symbol: symbol.to_string(),
        quote: Quote {
            usd: UsdQuote {
                price: num(price),
                percent_change_1h: num(0.5),
                percent_change_24h: num(2.5),
                percent_change_7d: num(10.0),
                market_cap: num(900000000000.0),
                volume_24h: num(50000000000.0),
                last_updated: "2024-01-01T00:00:00Z".to_string(),
            },
        },
    }
}

fn series(symbol: &str, timeframe: &str, price: f64) -> HistoricalDataResult {
    HistoricalDataResult {
        success: true,
        data: vec![HistoricalDataPoint {
            timestamp: 1704067200,
            price: num(price),
            volume: Some(num(1000000000.0)),
        }],
        error: None,
        symbol: Some(symbol.to_string()),
        timeframe: Some(timeframe.to_string()),
    }
}

#[test]
fn test_historical_data_topic_formatting() {
    let symbol = "btc";
    let timeframe = "24h";
    let expected_topic = "crypto/historical/BTC/24h";
    let actual_topic = historical_topic(symbol, timeframe);

    assert_eq!(actual_topic, expected_topic);

    let test_cases = vec![
        ("eth", "1h", "crypto/historical/ETH/1h"),
        ("DOGE", "7d", "crypto/historical/DOGE/7d"),
        ("ada", "30d", "crypto/historical/ADA/30d"),
    ];

    for (symbol, timeframe, expected) in test_cases {
        let topic = historical_topic(symbol, timeframe);
        assert_eq!(topic, expected);
    }
}

#[test]
fn test_max_retry_attempts_constant() {
    let max_retry_attempts = MAX_RETRY_ATTEMPTS;
    assert_eq!(max_retry_attempts, 3);
    assert!(max_retry_attempts > 0);
    assert!(max_retry_attempts <= 10);
    assert_eq!(MQTTClient::new().max_retry_attempts, 3);
}

#[test]
fn test_historical_data_result_type_compatibility() {
    let historical_data = HistoricalDataResult {
        success: true,
        data: vec![],
        error: None,
        symbol: Some("BTC".to_string()),
        timeframe: Some("24h".to_string()),
    };

    assert!(historical_data.success);
    assert_eq!(historical_data.data.len(), 0);
    assert!(historical_data.error.is_none());
    assert_eq!(historical_data.symbol, Some("BTC".to_string()));
    assert_eq!(historical_data.timeframe, Some("24h".to_string()));

    let mut map: HashMap<String, HistoricalDataResult> = HashMap::new();
    map.insert("crypto/historical/BTC/24h".to_string(), historical_data);

    assert_eq!(map.len(), 1);
    assert!(map.contains_key("crypto/historical/BTC/24h"));
}

#[test]
fn test_connection_state_management() {
    let mut client = MQTTClient::new();
    let max_retry_attempts = client.max_retry_attempts;

    assert!(!client.is_connected());
    assert_eq!(client.get_connection_attempts(), 0);

    ConnectionManager::handle_connection_error(&mut client);
    assert_eq!(client.get_connection_attempts(), 1);
    assert!(client.get_connection_attempts() <= max_retry_attempts);
    assert!(!client.has_exceeded_max_retries());

    client.connection_attempts = max_retry_attempts + 1;
    assert!(client.get_connection_attempts() > max_retry_attempts);
    assert!(client.has_exceeded_max_retries());

    client.reset_connection_attempts();
    assert_eq!(client.get_connection_attempts(), 0);

    ConnectionManager::handle_connection_success(&mut client);
    assert!(client.is_connected());
}

#[test]
fn test_qos_setting() {
    let client = MQTTClient::new();
    let qos = client.publish_message("crypto/requests/historical", "BTC:24h").qos;
    match qos {
        QoS::AtMostOnce => assert!(false, "Should not use AtMostOnce"),
        QoS::AtLeastOnce => assert!(true, "Correct QoS setting"),
        QoS::ExactlyOnce => assert!(false, "Should not use ExactlyOnce for performance reasons"),
    }
}

#[test]
fn test_callback_management() {
    let mut client = MQTTClient::new();
    assert!(!client.trigger_price_update_callback());

    client.set_price_update_callback();
    assert!(client.callback_registered);
    assert!(client.trigger_price_update_callback());

    client.clear_price_update_callback();
    assert!(!client.callback_registered);
    assert!(!client.trigger_price_update_callback());
}

#[test]
fn backoff_doubles_and_is_capped() {
    let expected = [1u64, 2, 4, 8, 16, 32, 32, 32];
    for (i, want) in expected.iter().enumerate() {
        assert_eq!(backoff_delay_secs(i as u32 + 1), *want);
    }
    assert_eq!(backoff_delay_secs(1000), MAX_BACKOFF_SECS);
    assert_eq!(backoff_delay_secs(u32::MAX), 32);
}

#[test]
fn unreachable_broker_is_retried_five_times() {
    let mut client = MQTTClient::new();
    client.is_connected = true;
    let mut sleeps = Vec::new();
    let mut gave_up = false;
    for _ in 0..10 {
        match ConnectionManager::handle_connection_error(&mut client) {
            Reconnect::RetryAfter { secs } => sleeps.push(secs),
            Reconnect::GiveUp => {
                gave_up = true;
                break;
            }
        }
        assert!(!client.is_connected());
    }
    assert_eq!(sleeps, vec![1, 2, 4, 8, 16]);
    assert!(gave_up);
    assert!(!client.is_connected());
    assert_eq!(client.get_connection_attempts(), MAX_RECONNECT_ATTEMPTS + 1);

    assert_eq!(ConnectionManager::handle_connection_error(&mut client), Reconnect::GiveUp);
    assert_eq!(client.get_connection_attempts(), MAX_RECONNECT_ATTEMPTS + 1);

    client.reset_connection_attempts();
    assert_eq!(
        ConnectionManager::handle_connection_error(&mut client),
        Reconnect::RetryAfter { secs: 1 }
    );
}

#[test]
fn connection_success_resets_and_subscribes() {
    let mut client = MQTTClient::new();
    ConnectionManager::handle_connection_error(&mut client);
    ConnectionManager::handle_connection_error(&mut client);
    assert_eq!(client.get_connection_attempts(), 2);

    let subscriptions = ConnectionManager::handle_connection_success(&mut client);
    assert!(client.is_connected());
    assert_eq!(client.get_connection_attempts(), 0);
    assert_eq!(subscriptions.len(), 2);
    assert_eq!(subscriptions[0].topic, "crypto/prices/latest");
    assert_eq!(subscriptions[0].qos, QoS::AtLeastOnce);
    assert_eq!(subscriptions[1].topic, "crypto/historical/+/+");
    assert_eq!(subscriptions[1].qos, QoS::AtMostOnce);

    ConnectionManager::handle_disconnect(&mut client);
    assert!(!client.is_connected());
    assert_eq!(client.get_connection_attempts(), 0);
}

#[test]
fn connection_manager_keeps_the_configuration() {
    let config = Config {
        broker_host: "broker.example".to_string(),
        broker_port: 1884,
        enable_debug_logging: false,
        log_level: "WARN".to_string(),
    };
    let manager = ConnectionManager::new(&config).unwrap();
    assert_eq!(manager.config.broker_host, "broker.example");
    assert_eq!(manager.config.broker_port, 1884);
    assert!(!manager.config.enable_debug_logging);
    assert_eq!(manager.config.log_level, "WARN");

    let options = manager.create_client();
    assert_eq!(options.client_id(), "rust-ios-client");
    assert_eq!(options.broker_address(), ("broker.example".to_string(), 1884));
    assert_eq!(options.keep_alive(), std::time::Duration::from_secs(60));
    assert!(options.clean_session());
    assert_eq!(options.max_packet_size(), 102400);
}

#[test]
fn cold_start_snapshot_is_delivered() {
    let mut client = MQTTClient::new();
    let mut handler = MessageHandler::new();
    assert_eq!(startup_wait(&client, 0), WaitStep::Sleep { millis: 100 });

    ConnectionManager::handle_connection_success(&mut client);
    let outcome = handler.handle_message(
        &mut client,
        "crypto/prices/latest",
        Incoming::Snapshot(Some(vec![instrument(1, "Bitcoin", "BTC", 50000.0)])),
        1200,
    );
    assert_eq!(outcome, MessageOutcome::SnapshotAccepted { notify: false });
    assert_eq!(startup_wait(&client, 1200), WaitStep::Ready);

    let latest = client.get_latest_prices().unwrap();
    assert_eq!(latest.len(), 1);
    assert_eq!(latest[0].id, 1);
    assert_eq!(latest[0].symbol, "BTC");
    assert_eq!(value(latest[0].quote.usd.price), 50000.0);
    assert!(client.is_connected());
}

#[test]
fn startup_wait_gives_up_after_the_window() {
    let client = MQTTClient::new();
    assert_eq!(startup_wait(&client, 1900), WaitStep::Sleep { millis: 100 });
    assert_eq!(startup_wait(&client, 1950), WaitStep::Sleep { millis: 50 });
    assert_eq!(startup_wait(&client, 2000), WaitStep::TimedOut);
    assert_eq!(startup_wait(&client, u64::MAX), WaitStep::TimedOut);

    let mut connected = MQTTClient::new();
    connected.is_connected = true;
    assert_eq!(startup_wait(&connected, 5000), WaitStep::Ready);
}

#[test]
fn identical_snapshots_within_the_window_notify_once() {
    let mut client = MQTTClient::new();
    client.set_price_update_callback();
    let mut handler = MessageHandler::new();
    let mut hook_calls = 0;

    for now in [10_000u64, 10_100] {
        let outcome = handler.handle_latest_prices(
            &mut client,
            Some(vec![instrument(1, "Bitcoin", "BTC", 50000.0)]),
            now,
        );
        if let MessageOutcome::SnapshotAccepted { notify: true } = outcome {
            hook_calls += 1;
        }
    }
    assert_eq!(hook_calls, 1);
    assert_eq!(handler.last_update_time, Some(10_000));
    let latest = client.get_latest_prices().unwrap();
    assert_eq!(latest.len(), 1);
    assert_eq!(latest[0].symbol, "BTC");
}

#[test]
fn debounce_window_is_five_hundred_milliseconds() {
    assert_eq!(DEBOUNCE_MS, 500);
    let mut client = MQTTClient::new();
    let mut handler = MessageHandler::new();
    let snapshot = |price: f64| Some(vec![instrument(1, "Bitcoin", "BTC", price)]);

    assert_eq!(
        handler.handle_latest_prices(&mut client, snapshot(1.0), 0),
        MessageOutcome::SnapshotAccepted { notify: false }
    );
    assert_eq!(
        handler.handle_latest_prices(&mut client, snapshot(2.0), 499),
        MessageOutcome::SnapshotDebounced
    );
    assert_eq!(value(client.get_latest_prices().unwrap()[0].quote.usd.price), 1.0);
    assert_eq!(handler.last_update_time, Some(0));

    assert_eq!(
        handler.handle_latest_prices(&mut client, snapshot(3.0), 500),
        MessageOutcome::SnapshotAccepted { notify: false }
    );
    assert_eq!(value(client.get_latest_prices().unwrap()[0].quote.usd.price), 3.0);

    // A clock that was set back accepts nothing until it has caught up.
    assert_eq!(
        handler.handle_latest_prices(&mut client, snapshot(4.0), 100),
        MessageOutcome::SnapshotDebounced
    );
    assert_eq!(handler.last_update_time, Some(500));
}

#[test]
fn undecodable_snapshot_is_dropped() {
    let mut client = MQTTClient::new();
    let mut handler = MessageHandler::new();
    assert_eq!(handler.handle_latest_prices(&mut client, None, 0), MessageOutcome::Dropped);
    assert!(client.get_latest_prices().is_none());
    assert_eq!(handler.last_update_time, None);
}

#[test]
fn messages_are_routed_by_topic() {
    let mut client = MQTTClient::new();
    let mut handler = MessageHandler::new();

    let stored = handler.handle_message(
        &mut client,
        "crypto/historical/ETH/7d",
        Incoming::Series(Some(series("ETH", "7d", 3000.0))),
        0,
    );
    assert_eq!(stored, MessageOutcome::SeriesStored);
    let got = client.get_historical_data("eth", "7d").unwrap();
    assert_eq!(value(got.data[0].price), 3000.0);
    assert!(client.get_historical_data("ETH", "30d").is_none());

    let replaced = handler.handle_message(
        &mut client,
        "crypto/historical/ETH/7d",
        Incoming::Series(Some(series("ETH", "7d", 3100.0))),
        1,
    );
    assert_eq!(replaced, MessageOutcome::SeriesStored);
    assert_eq!(value(client.get_historical_data("ETH", "7d").unwrap().data[0].price), 3100.0);
    assert_eq!(client.historical_data.len(), 1);

    let seen = handler.handle_message(
        &mut client,
        "crypto/prices/BTC",
        Incoming::Instrument(Some(instrument(1, "Bitcoin", "BTC", 50000.0))),
        2,
    );
    assert_eq!(seen, MessageOutcome::InstrumentSeen);
    assert!(client.get_latest_prices().is_none());

    for (topic, message) in [
        ("crypto/other", Incoming::Opaque),
        ("crypto/historical/ETH", Incoming::Series(Some(series("ETH", "7d", 1.0)))),
        ("crypto/historical//7d", Incoming::Series(Some(series("ETH", "7d", 1.0)))),
        ("crypto/historical/ETH/7d/x", Incoming::Series(Some(series("ETH", "7d", 1.0)))),
        ("crypto/historical/ETH/7d", Incoming::Series(None)),
        ("crypto/historical/ETH/7d", Incoming::Snapshot(Some(vec![]))),
        ("crypto/prices/latest", Incoming::Snapshot(None)),
        ("crypto/prices/latest", Incoming::Instrument(None)),
        ("crypto/prices/", Incoming::Instrument(Some(instrument(1, "B", "B", 1.0)))),
        ("crypto/requests/historical", Incoming::Opaque),
    ] {
        assert_eq!(handler.handle_message(&mut client, topic, message, 3), MessageOutcome::Dropped);
    }
    assert_eq!(client.historical_data.len(), 1);
    assert!(client.get_latest_prices().is_none());
}

#[test]
fn history_is_requested_once_then_awaited() {
    let mut client = MQTTClient::new();

    match get_historical_data(&client, "eth", "7d", false, 0) {
        HistoryStep::Request { publication } => {
            assert_eq!(publication.topic, "crypto/requests/historical");
            assert_eq!(publication.payload, "ETH:7d");
            assert_eq!(publication.qos, QoS::AtLeastOnce);
            assert!(!publication.retain);
        }
        _ => panic!("expected a request"),
    }
    match get_historical_data(&client, "eth", "7d", true, 0) {
        HistoryStep::Sleep { millis } => assert_eq!(millis, 100),
        _ => panic!("expected a pause"),
    }
    match get_historical_data(&client, "eth", "7d", true, 1960) {
        HistoryStep::Sleep { millis } => assert_eq!(millis, 40),
        _ => panic!("expected a pause"),
    }
    match get_historical_data(&client, "eth", "7d", true, 2000) {
        HistoryStep::NotAvailable { series } => {
            assert!(!series.success);
            assert!(series.data.is_empty());
            assert_eq!(series.error, Some("not available after request".to_string()));
            assert_eq!(series.symbol, Some("ETH".to_string()));
            assert_eq!(series.timeframe, Some("7d".to_string()));
        }
        _ => panic!("expected a failure"),
    }

    MessageHandler::handle_historical_data(
        &mut client,
        "crypto/historical/ETH/7d",
        Some(series("ETH", "7d", 3000.0)),
    );
    for (requested, waited) in [(false, 0), (true, 500), (true, 5000)] {
        match get_historical_data(&client, "ETH", "7d", requested, waited) {
            HistoryStep::Found { series } => {
                assert!(series.success);
                assert_eq!(value(series.data[0].price), 3000.0);
            }
            _ => panic!("expected the cached series"),
        }
    }
}

#[test]
fn crypto_data_reports_the_snapshot_or_an_error() {
    let none: Option<MQTTClient> = None;
    let missing = get_crypto_data(&none, "2024-01-01T00:00:00+00:00".to_string());
    assert!(!missing.success);
    assert!(missing.data.is_none());
    assert_eq!(missing.error, Some("MQTT connection failed or no data available".to_string()));
    assert!(missing.last_updated.is_none());
    assert!(!missing.cached);

    let empty = Some(MQTTClient::new());
    assert!(!get_crypto_data(&empty, "t".to_string()).success);

    let mut client = MQTTClient::new();
    client.latest_prices = Some(vec![instrument(1, "Bitcoin", "BTC", 50000.0)]);
    let found = get_crypto_data(&Some(client), "2024-01-01T00:00:00+00:00".to_string());
    assert!(found.success);
    assert_eq!(found.data.unwrap()[0].symbol, "BTC");
    assert!(found.error.is_none());
    assert_eq!(found.last_updated, Some("2024-01-01T00:00:00+00:00".to_string()));
    assert!(found.cached);
}

#[test]
fn mqtt_error_carries_its_message() {
    let result = return_mqtt_error("Test error message");
    assert!(!result.success);
    assert!(result.data.is_none());
    assert_eq!(result.error, Some("Test error message".to_string()));
    assert!(result.last_updated.is_none());
    assert!(!result.cached);
}

#[test]
fn event_loop_turns_follow_the_events() {
    let mut client = MQTTClient::new();
    let mut handler = MessageHandler::new();

    match ConnectionManager::handle_event(&mut handler, &mut client, BusEvent::Connected, 0) {
        LoopAction::Subscribe { subscriptions } => {
            assert_eq!(subscriptions.len(), 2);
            assert_eq!(subscriptions[0].topic, "crypto/prices/latest");
            assert_eq!(subscriptions[1].topic, "crypto/historical/+/+");
        }
        _ => panic!("expected subscriptions"),
    }
    assert!(client.is_connected());

    client.set_price_update_callback();
    let message = BusEvent::Message {
        topic: "crypto/prices/latest".to_string(),
        message: Incoming::Snapshot(Some(vec![instrument(1, "Bitcoin", "BTC", 50000.0)])),
    };
    match ConnectionManager::handle_event(&mut handler, &mut client, message, 10) {
        LoopAction::Handled { outcome } => {
            assert_eq!(outcome, MessageOutcome::SnapshotAccepted { notify: true })
        }
        _ => panic!("expected a handled message"),
    }
    assert_eq!(client.get_latest_prices().unwrap()[0].symbol, "BTC");

    assert!(matches!(
        ConnectionManager::handle_event(&mut handler, &mut client, BusEvent::Other, 20),
        LoopAction::Poll
    ));
    assert!(client.is_connected());

    assert!(matches!(
        ConnectionManager::handle_event(&mut handler, &mut client, BusEvent::Disconnected, 30),
        LoopAction::Poll
    ));
    assert!(!client.is_connected());
    assert_eq!(client.get_connection_attempts(), 0);

    let mut sleeps = Vec::new();
    loop {
        match ConnectionManager::handle_event(&mut handler, &mut client, BusEvent::PollFailed, 40) {
            LoopAction::Sleep { secs } => sleeps.push(secs),
            LoopAction::Exit => break,
            _ => panic!("expected a pause or the exit"),
        }
    }
    assert_eq!(sleeps, vec![1, 2, 4, 8, 16]);
    assert!(!client.is_connected());
    // The snapshot and the hook survive the loss of the connection.
    assert!(client.get_latest_prices().is_some());
    assert!(client.trigger_price_update_callback());
    assert!(client.is_well_formed());
}

#[test]
fn invalid_argument_reports_without_symbol() {
    let series = invalid_argument("Invalid symbol");
    assert!(!series.success);
    assert!(series.data.is_empty());
    assert_eq!(series.error, Some("Invalid symbol".to_string()));
    assert_eq!(series.symbol, None);
    assert_eq!(series.timeframe, None);
    assert!(series.is_well_formed());
}

#[test]
fn reset_enters_the_cycle_of_retries_again() {
    let mut client = MQTTClient::new();
    let mut handler = MessageHandler::new();
    assert!(!client.retries_exhausted());

    let mut turns = 0;
    loop {
        turns += 1;
        let action =
            ConnectionManager::handle_event(&mut handler, &mut client, BusEvent::PollFailed, 0);
        let left = matches!(action, LoopAction::Exit);
        assert_eq!(left, client.retries_exhausted());
        if left {
            break;
        }
    }
    assert_eq!(turns, 6);
    assert!(client.retries_exhausted());
    assert!(!client.is_connected());

    client.reset_connection_attempts();
    assert!(!client.retries_exhausted());
    assert!(!client.is_connected());
    let mut sleeps = Vec::new();
    loop {
        match ConnectionManager::handle_event(&mut handler, &mut client, BusEvent::PollFailed, 0) {
            LoopAction::Sleep { secs } => sleeps.push(secs),
            LoopAction::Exit => break,
            _ => panic!("expected a pause or the exit"),
        }
    }
    assert_eq!(sleeps, vec![1, 2, 4, 8, 16]);

    client.reset_connection_attempts();
    ConnectionManager::handle_event(&mut handler, &mut client, BusEvent::Connected, 0);
    assert!(client.is_connected());
    assert!(!client.retries_exhausted());
}

#[test]
fn client_state_is_checked() {
    let mut client = MQTTClient::new();
    assert!(client.is_well_formed());
    client.connection_attempts = MAX_RECONNECT_ATTEMPTS + 1;
    assert!(client.is_well_formed());
    client.connection_attempts = MAX_RECONNECT_ATTEMPTS + 2;
    assert!(!client.is_well_formed());
}

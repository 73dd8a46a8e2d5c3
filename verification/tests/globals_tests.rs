use std::sync::Mutex;

use coin_crab::client::MQTTClient;
use coin_crab::consumer::{get_crypto_data, get_historical_data, return_mqtt_error};
use coin_crab::globals::{
    init_mqtt_client, is_mqtt_connected, reset_mqtt_connection_attempts, with_mqtt_client,
};

static MQTT_CLIENT: Mutex<Option<MQTTClient>> = Mutex::new(None);

#[test]
fn test_mqtt_client_global_initialization() {
    let client_guard = MQTT_CLIENT.lock().unwrap();
    let _is_some = client_guard.is_some();
    assert!(true);
}

#[test]
fn test_is_mqtt_connected_without_client() {
    let slot: Option<MQTTClient> = None;
    let connected = is_mqtt_connected(&slot);
    assert!(connected == false || connected == true);
    assert!(!connected);
}

#[test]
fn test_reset_mqtt_connection_attempts_without_client() {
    let mut slot: Option<MQTTClient> = None;
    reset_mqtt_connection_attempts(&mut slot);
    assert!(slot.is_none());
    assert!(true);
}

#[test]
fn test_with_mqtt_client_none() {
    let slot: Option<MQTTClient> = None;
    let result = with_mqtt_client(&slot, |_client| 42);

    match result {
        None => assert!(true),
        Some(value) => assert_eq!(value, 42),
    }
    assert!(result.is_none());
}

#[test]
fn test_with_mqtt_client_closure_execution() {
    let slot: Option<MQTTClient> = None;
    let mut counter = 0;
    let _result = with_mqtt_client(&slot, |_client| {
        counter += 1;
        "test"
    });
    assert!(counter == 0 || counter == 1);
    assert_eq!(counter, 0);

    let mut full: Option<MQTTClient> = None;
    assert!(init_mqtt_client(&mut full).is_ok());
    let mut calls = 0;
    let result = with_mqtt_client(&full, |_client| {
        calls += 1;
        "test"
    });
    assert_eq!(result, Some("test"));
    assert_eq!(calls, 1);
}

#[test]
fn test_mutex_thread_safety() {
    {
        let _guard1 = MQTT_CLIENT.lock().unwrap();
    }
    {
        let _guard2 = MQTT_CLIENT.lock().unwrap();
    }
    assert!(true);
}

#[test]
fn test_global_static_accessibility() {
    let guard = MQTT_CLIENT.lock().unwrap();
    match &*guard {
        Some(_client) => {
            assert!(true);
        }
        None => {
            assert!(true);
        }
    }
}

#[test]
fn test_function_error_handling() {
    let mut slot: Option<MQTTClient> = None;
    let _connected = is_mqtt_connected(&slot);
    reset_mqtt_connection_attempts(&mut slot);
    let _result = with_mqtt_client(&slot, |_| "test");
    assert!(true);
}

#[test]
fn lib_test_module_re_exports() {
    let _get_crypto_fn = get_crypto_data;
    let _get_historical_fn = get_historical_data;
    let _error_fn = return_mqtt_error;

    let _init_mqtt_fn = init_mqtt_client;
    let _is_connected_fn = is_mqtt_connected;
    let _reset_attempts_fn = reset_mqtt_connection_attempts;

    assert!(true);
}

#[test]
fn test_library_structure() {
    let _types_mod = "types";
    let _config_mod = "config";
    let _mqtt_mod = "mqtt";
    let _ffi_mod = "ffi";
    let _globals_mod = "globals";

    assert_eq!(_types_mod, "types");
    assert_eq!(_config_mod, "config");
    assert_eq!(_mqtt_mod, "mqtt");
    assert_eq!(_ffi_mod, "ffi");
    assert_eq!(_globals_mod, "globals");
}

#[test]
fn test_global_functions_callable() {
    let mut slot: Option<MQTTClient> = None;

    let connected = is_mqtt_connected(&slot);
    assert!(!connected);

    reset_mqtt_connection_attempts(&mut slot);

    assert!(true);
}

#[test]
fn init_installs_a_fresh_client() {
    let mut slot: Option<MQTTClient> = None;
    assert!(init_mqtt_client(&mut slot).is_ok());
    let client = slot.as_ref().unwrap();
    assert!(!client.is_connected());
    assert_eq!(client.get_connection_attempts(), 0);
    assert!(client.get_latest_prices().is_none());
    assert!(client.get_historical_data("BTC", "24h").is_none());
    assert!(!is_mqtt_connected(&slot));
}

#[test]
fn reset_clears_only_the_counter() {
    let mut slot: Option<MQTTClient> = None;
    init_mqtt_client(&mut slot).unwrap();
    if let Some(client) = slot.as_mut() {
        client.connection_attempts = 4;
        client.is_connected = true;
    }
    assert!(is_mqtt_connected(&slot));
    reset_mqtt_connection_attempts(&mut slot);
    let client = slot.as_ref().unwrap();
    assert_eq!(client.get_connection_attempts(), 0);
    assert!(client.is_connected());
}

#[test]
fn init_replaces_the_client_in_the_slot() {
    let mut slot: Option<MQTTClient> = None;
    init_mqtt_client(&mut slot).unwrap();
    slot.as_mut().unwrap().is_connected = true;
    init_mqtt_client(&mut slot).unwrap();
    assert!(!is_mqtt_connected(&slot));
}

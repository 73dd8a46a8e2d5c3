//! Market-data fan-out for a fixed catalogue of cryptocurrency instruments:
//! the decisions of a service that polls a quote provider, caches what it
//! learns and republishes it over a pub/sub bus, and of the long-lived client
//! through which consumers read the bus.
//!
//! The library does no input or output. Its callers talk to the provider,
//! to the bus and to the clock, and hand the library what they got; the
//! library answers with the next state and with what to do next.
//!
//! * `topics`, `timeframe`, `text`: how symbols and timeframes are written
//!   into topics, cache keys and upstream requests.
//! * `types`, `api`: the records on the wire and the state of the server.
//! * `history`, `listings`: what is asked of the upstream, and what its
//!   answers mean.
//! * `cache`, `store`: the caches of the server.
//! * `publisher`, `request_handler`, `sweeper`, `broker`, `handlers`: the
//!   server's side of the bus and its HTTP interface.
//! * `client`, `consumer`, `globals`, `backoff`, `config`, `session`: a
//!   consumer's client.
//! * `json`, `clock`: JSON documents and calendar time.

pub mod api;
pub mod backoff;
pub mod broker;
pub mod cache;
pub mod client;
pub mod clock;
pub mod config;
pub mod consumer;
pub mod globals;
pub mod handlers;
pub mod history;
pub mod json;
pub mod listings;
pub mod publisher;
pub mod request_handler;
pub mod session;
pub mod store;
pub mod sweeper;
pub mod text;
pub mod timeframe;
pub mod topics;
pub mod types;

pub use api::{ApiResponse, CryptoClientResult};
pub use client::MQTTClient;
pub use globals::{init_mqtt_client, is_mqtt_connected, reset_mqtt_connection_attempts};
pub use types::{CryptoCurrency, HistoricalDataPoint, HistoricalDataResult, Quote, UsdQuote};

//! Sessions on the bus: the options with which each of the service's
//! clients connects, built as `rumqttc` options.

use vstd::prelude::*;

verus! {

/// `rumqttc::MqttOptions`, the options of a session. Nothing of its inside
/// is visible here; `session_model` names what it holds.
#[verifier::external_type_specification]
#[verifier::external_body]
pub struct ExMqttOptions(rumqttc::MqttOptions);

/// What the options of a session hold, as far as this library sets it.
pub struct SessionModel {
    pub client_id: Seq<char>,
    pub host: Seq<char>,
    pub port: u16,
    pub keep_alive_secs: u64,
    pub clean_session: bool,
    pub max_incoming_packet_size: usize,
    pub max_outgoing_packet_size: usize,
}

/// What `options` holds.
pub uninterp spec fn session_model(options: rumqttc::MqttOptions) -> SessionModel;

/// Largest packet that a session sends or accepts, in bytes.
pub const MAX_PACKET_SIZE: usize = 102400;

/// Seconds of silence after which a client of the server pings the broker.
pub const SERVER_KEEP_ALIVE_SECS: u64 = 30;

/// Seconds of silence after which a consumer's client pings the broker.
pub const CLIENT_KEEP_ALIVE_SECS: u64 = 60;

/// Identifier of the session on which the server publishes.
pub const PUBLISHER_CLIENT_ID: &'static str = "crypto-server-publisher";

/// Identifier of the session on which the server receives requests. It is
/// a session of its own: a session does not get what it publishes itself in
/// the way the handling of requests needs.
pub const REQUEST_HANDLER_CLIENT_ID: &'static str = "crypto-server-subscriber";

/// Identifier of the session of a consumer's client.
pub const SUBSCRIBER_CLIENT_ID: &'static str = "rust-ios-client";

/// Identifier of the stand-in session that is used where no broker runs.
pub const FALLBACK_CLIENT_ID: &'static str = "dummy-client";

/// `MqttOptions::new`: options for the given identifier, host and port,
/// with the crate's defaults for the rest: a keep-alive of 60 seconds, a
/// clean session, and packets of at most 10 KiB either way.
#[verifier::external_body]
pub(crate) fn options_new(client_id: &str, host: &str, port: u16) -> (options: rumqttc::MqttOptions)
    ensures
        session_model(options) == (SessionModel {
            client_id: client_id@,
            host: host@,
            port,
            keep_alive_secs: 60,
            clean_session: true,
            max_incoming_packet_size: 10240,
            max_outgoing_packet_size: 10240,
        }),
{
    rumqttc::MqttOptions::new(client_id, host, port)
}

/// `MqttOptions::set_keep_alive` with a whole number of seconds: sets the
/// keep-alive and nothing else. (The call panics on a duration between zero
/// and one second, which whole seconds never are.)
#[verifier::external_body]
pub(crate) fn options_set_keep_alive(options: &mut rumqttc::MqttOptions, secs: u64)
    ensures
        session_model(*final(options)) == (SessionModel {
            keep_alive_secs: secs,
            ..session_model(*old(options))
        }),
{
    options.set_keep_alive(std::time::Duration::from_secs(secs));
}

/// `MqttOptions::set_clean_session`: sets the flag and nothing else. The
/// call panics where a session without identifier is to be kept.
#[verifier::external_body]
pub(crate) fn options_set_clean_session(options: &mut rumqttc::MqttOptions, clean_session: bool)
    requires
        clean_session || session_model(*old(options)).client_id.len() > 0,
    ensures
        session_model(*final(options)) == (SessionModel {
            clean_session,
            ..session_model(*old(options))
        }),
{
    options.set_clean_session(clean_session);
}

/// `MqttOptions::set_max_packet_size`: sets the two limits and nothing else.
#[verifier::external_body]
pub(crate) fn options_set_max_packet_size(
    options: &mut rumqttc::MqttOptions,
    incoming: usize,
    outgoing: usize,
)
    ensures
        session_model(*final(options)) == (SessionModel {
            max_incoming_packet_size: incoming,
            max_outgoing_packet_size: outgoing,
            ..session_model(*old(options))
        }),
{
    options.set_max_packet_size(incoming, outgoing);
}

/// The options of a clean session with the given keep-alive and the
/// service's packet limit.
pub open spec fn spec_session(
    client_id: Seq<char>,
    host: Seq<char>,
    port: u16,
    keep_alive_secs: u64,
) -> SessionModel {
    SessionModel {
        client_id,
        host,
        port,
        keep_alive_secs,
        clean_session: true,
        max_incoming_packet_size: MAX_PACKET_SIZE,
        max_outgoing_packet_size: MAX_PACKET_SIZE,
    }
}

/// Options of a clean session with the given keep-alive.
pub fn session_options(client_id: &str, host: &str, port: u16, keep_alive_secs: u64) -> (options:
    rumqttc::MqttOptions)
    ensures
        session_model(options) == spec_session(client_id@, host@, port, keep_alive_secs),
{
    let mut options = options_new(client_id, host, port);
    options_set_keep_alive(&mut options, keep_alive_secs);
    options_set_clean_session(&mut options, true);
    options_set_max_packet_size(&mut options, MAX_PACKET_SIZE, MAX_PACKET_SIZE);
    options
}

/// Options of a session of the server: clean, a keep-alive of 30 seconds,
/// packets of at most 102,400 bytes.
pub fn create_mqtt_options(client_id: &str, broker_host: &str, broker_port: u16) -> (options:
    rumqttc::MqttOptions)
    ensures
        session_model(options) == spec_session(
            client_id@,
            broker_host@,
            broker_port,
            SERVER_KEEP_ALIVE_SECS,
        ),
{
    session_options(client_id, broker_host, broker_port, SERVER_KEEP_ALIVE_SECS)
}

/// Port of the stand-in session: the one after the broker's, where there is
/// one.
pub open spec fn spec_fallback_port(broker_port: u16) -> u16 {
    if broker_port < u16::MAX {
        (broker_port + 1) as u16
    } else {
        broker_port
    }
}

/// Options of the stand-in session that the publisher falls back to where
/// the broker did not start: it points at a port on which nothing listens,
/// so that what is published on it is accepted and dropped.
pub fn fallback_options(broker_host: &str, broker_port: u16) -> (options: rumqttc::MqttOptions)
    ensures
        session_model(options) == (SessionModel {
            client_id: FALLBACK_CLIENT_ID@,
            host: broker_host@,
            port: spec_fallback_port(broker_port),
            keep_alive_secs: 60,
            clean_session: true,
            max_incoming_packet_size: 10240,
            max_outgoing_packet_size: 10240,
        }),
{
    let port = if broker_port < u16::MAX {
        broker_port + 1
    } else {
        broker_port
    };
    options_new(FALLBACK_CLIENT_ID, broker_host, port)
}

} // verus!

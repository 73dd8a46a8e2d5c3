//! Starting the broker that runs inside the server. Its configuration is
//! read from a file at a fixed place; without a usable file the broker does
//! not start, and the server goes on without the bus.

use vstd::prelude::*;
use vstd::string::*;
use crate::session::{
    create_mqtt_options, session_model, spec_session, PUBLISHER_CLIENT_ID, SERVER_KEEP_ALIVE_SECS,
};

verus! {

/// Where the configuration of the broker is read from.
pub const BROKER_CONFIG_PATH: &'static str = "rumqttd.toml";

/// Seconds given to the broker to start before the publisher connects.
pub const BROKER_STARTUP_SECS: u64 = 3;

/// Seconds given to the publisher to connect before it is used.
pub const PUBLISHER_CONNECT_SECS: u64 = 2;

/// What came of reading the configuration of the broker.
#[derive(Debug)]
pub enum BrokerConfigFile {
    /// There is no file at the fixed place.
    Missing,
    /// The file could not be read.
    Unreadable { detail: String },
    /// The file is no configuration of a broker.
    Malformed { detail: String },
    /// The configuration was read.
    Loaded,
}

/// The error with which the start of the broker fails; `None` where the
/// configuration was read.
pub open spec fn spec_startup_error(file: BrokerConfigFile) -> Option<Seq<char>> {
    match file {
        BrokerConfigFile::Missing => Some(
            "MQTT broker config file "@ + BROKER_CONFIG_PATH@ + " not found"@,
        ),
        BrokerConfigFile::Unreadable { detail } => Some("Failed to read broker config: "@ + detail@),
        BrokerConfigFile::Malformed { detail } => Some("Failed to parse broker config: "@ + detail@),
        BrokerConfigFile::Loaded => None,
    }
}

/// Decides the start of the broker on `broker_host` and `broker_port`. With
/// its configuration read, the broker is started, and the publisher
/// connects to it with the options returned. Otherwise the start fails with
/// the error returned, and the publisher falls back to its stand-in
/// session.
pub fn setup_mqtt_broker(file: &BrokerConfigFile, broker_host: &str, broker_port: u16) -> (started:
    Result<rumqttc::MqttOptions, String>)
    ensures
        match spec_startup_error(*file) {
            Some(message) => started matches Err(text) && text@ == message,
            None => started matches Ok(options) && session_model(options) == spec_session(
                PUBLISHER_CLIENT_ID@,
                broker_host@,
                broker_port,
                SERVER_KEEP_ALIVE_SECS,
            ),
        },
{
    match file {
        BrokerConfigFile::Missing => {
            let mut message = String::from_str("MQTT broker config file ");
            message.append(BROKER_CONFIG_PATH);
            message.append(" not found");
            Err(message)
        },
        BrokerConfigFile::Unreadable { detail } => {
            let mut message = String::from_str("Failed to read broker config: ");
            message.append(detail.as_str());
            Err(message)
        },
        BrokerConfigFile::Malformed { detail } => {
            let mut message = String::from_str("Failed to parse broker config: ");
            message.append(detail.as_str());
            Err(message)
        },
        BrokerConfigFile::Loaded => Ok(
            create_mqtt_options(PUBLISHER_CLIENT_ID, broker_host, broker_port),
        ),
    }
}

} // verus!

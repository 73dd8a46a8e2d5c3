//! Configuration of the two processes, resolved from the values that the
//! environment gave (or did not give) for each setting.

use vstd::prelude::*;
use vstd::string::*;
use crate::text::{
    ascii_upper, decimal, parse_unsigned, push_char, push_decimal, spec_parse_unsigned, str_eq,
    to_ascii_upper,
};
use crate::types::opt_chars;

verus! {

/// Broker that a client connects to where none is configured.
pub const DEFAULT_BROKER_HOST: &'static str = "100.26.107.175";

/// Address on which the server's broker listens where none is configured.
pub const DEFAULT_SERVER_BROKER_HOST: &'static str = "0.0.0.0";

/// Broker that the server's own sessions connect to where none is
/// configured: the one that runs inside the server.
pub const DEFAULT_LOCAL_BROKER_HOST: &'static str = "127.0.0.1";

/// Port of the broker where none is configured.
pub const DEFAULT_BROKER_PORT: u16 = 1883;

/// Seconds between two polls of the listings where none is configured.
pub const DEFAULT_UPDATE_INTERVAL_SECS: u64 = 900;

/// The number that an optional setting writes, if it writes one that is at
/// most `max`; `default` otherwise.
pub open spec fn spec_number_or(setting: Option<Seq<char>>, max: nat, default: nat) -> nat {
    match setting {
        Some(text) => match spec_parse_unsigned(text, max) {
            Some(n) => n,
            None => default,
        },
        None => default,
    }
}

/// The text of an optional setting; `default` where it is not set.
pub open spec fn spec_text_or(setting: Option<Seq<char>>, default: Seq<char>) -> Seq<char> {
    match setting {
        Some(text) => text,
        None => default,
    }
}

/// Whether an optional switch is on: unset, it is `default`; set, it is on
/// exactly when it reads `true` in any mix of cases.
pub open spec fn spec_switch_or(setting: Option<Seq<char>>, default: bool) -> bool {
    match setting {
        Some(text) => ascii_upper(text) == "TRUE"@,
        None => default,
    }
}

/// The number that an optional setting writes, or `default`.
pub fn number_or(setting: &Option<String>, max: u64, default: u64) -> (n: u64)
    requires
        default <= max,
    ensures
        n == spec_number_or(opt_chars(*setting), max as nat, default as nat),
        n <= max,
{
    match setting {
        Some(text) => match parse_unsigned(text.as_str(), max) {
            Some(n) => n,
            None => default,
        },
        None => default,
    }
}

/// The text of an optional setting, or `default`.
pub fn text_or(setting: Option<String>, default: &str) -> (text: String)
    ensures
        text@ == spec_text_or(opt_chars(setting), default@),
{
    match setting {
        Some(text) => text,
        None => default.to_owned(),
    }
}

/// Whether an optional switch is on.
pub fn switch_or(setting: &Option<String>, default: bool) -> (on: bool)
    ensures
        on == spec_switch_or(opt_chars(*setting), default),
{
    match setting {
        Some(text) => {
            let upper = to_ascii_upper(text.as_str());
            str_eq(upper.as_str(), "TRUE")
        },
        None => default,
    }
}

/// Configuration of a client of the bus.
#[derive(Debug)]
pub struct Config {
    pub broker_host: String,
    pub broker_port: u16,
    pub enable_debug_logging: bool,
    pub log_level: String,
}

/// Model of a `Config`: its texts as characters.
pub struct ConfigView {
    pub broker_host: Seq<char>,
    pub broker_port: u16,
    pub enable_debug_logging: bool,
    pub log_level: Seq<char>,
}

impl View for Config {
    type V = ConfigView;

    open spec fn view(&self) -> ConfigView {
        ConfigView {
            broker_host: self.broker_host@,
            broker_port: self.broker_port,
            enable_debug_logging: self.enable_debug_logging,
            log_level: self.log_level@,
        }
    }
}

impl Clone for Config {
    fn clone(&self) -> (copy: Self)
        ensures
            copy@ == self@,
    {
        Config {
            broker_host: self.broker_host.clone(),
            broker_port: self.broker_port,
            enable_debug_logging: self.enable_debug_logging,
            log_level: self.log_level.clone(),
        }
    }
}

impl Config {
    /// The configuration that the given settings resolve to. A port that is
    /// not a number of 16 bits counts as not set.
    pub fn from_values(
        broker_host: Option<String>,
        broker_port: Option<String>,
        enable_debug_logging: Option<String>,
        log_level: Option<String>,
    ) -> (config: Config)
        ensures
            config@ == (ConfigView {
                broker_host: spec_text_or(opt_chars(broker_host), DEFAULT_BROKER_HOST@),
                broker_port: spec_number_or(
                    opt_chars(broker_port),
                    65535,
                    DEFAULT_BROKER_PORT as nat,
                ) as u16,
                enable_debug_logging: spec_switch_or(opt_chars(enable_debug_logging), true),
                log_level: spec_text_or(opt_chars(log_level), "DEBUG"@),
            }),
    {
        let port = number_or(&broker_port, 65535, DEFAULT_BROKER_PORT as u64);
        let debug = switch_or(&enable_debug_logging, true);
        Config {
            broker_host: text_or(broker_host, DEFAULT_BROKER_HOST),
            broker_port: port as u16,
            enable_debug_logging: debug,
            log_level: text_or(log_level, "DEBUG"),
        }
    }

    /// Address of the broker: the host, a colon, and the port in decimal.
    pub open spec fn spec_broker_address(&self) -> Seq<char> {
        self.broker_host@ + seq![':'] + decimal(self.broker_port as nat)
    }

    /// Address of the broker: the host, a colon, and the port in decimal.
    pub fn broker_address(&self) -> (address: String)
        ensures
            address@ == self.spec_broker_address(),
    {
        let mut address = self.broker_host.clone();
        push_char(&mut address, ':');
        push_decimal(&mut address, self.broker_port as u64);
        address
    }
}

/// Configuration of the server.
#[derive(Debug)]
pub struct ServerConfig {
    pub api_key: String,
    pub log_level: String,
    pub mqtt_broker_host: String,
    pub mqtt_broker_port: u16,
    pub update_interval_seconds: u64,
}

impl ServerConfig {
    /// The configuration that the given settings resolve to. The credential
    /// of the upstream is required; every other setting has a default. A
    /// port or an interval that is not a number counts as not set.
    pub fn from_values(
        api_key: Option<String>,
        log_level: Option<String>,
        mqtt_broker_host: Option<String>,
        mqtt_broker_port: Option<String>,
        update_interval_seconds: Option<String>,
    ) -> (loaded: Result<ServerConfig, String>)
        ensures
            loaded is Ok <==> (api_key matches Some(key) && key@.len() > 0),
            loaded matches Ok(config) ==> {
                &&& opt_chars(api_key) == Some(config.api_key@)
                &&& config.log_level@ == spec_text_or(opt_chars(log_level), "INFO"@)
                &&& config.mqtt_broker_host@ == spec_text_or(
                    opt_chars(mqtt_broker_host),
                    DEFAULT_SERVER_BROKER_HOST@,
                )
                &&& config.mqtt_broker_port == spec_number_or(
                    opt_chars(mqtt_broker_port),
                    65535,
                    DEFAULT_BROKER_PORT as nat,
                )
                &&& config.update_interval_seconds == spec_number_or(
                    opt_chars(update_interval_seconds),
                    u64::MAX as nat,
                    DEFAULT_UPDATE_INTERVAL_SECS as nat,
                )
            },
            loaded matches Err(message) ==> message@ == "CMC_API_KEY is required"@,
    {
        let key = match api_key {
            Some(key) => key,
            None => {
                return Err(String::from_str("CMC_API_KEY is required"));
            },
        };
        if key.as_str().is_empty() {
            return Err(String::from_str("CMC_API_KEY is required"));
        }
        let port = number_or(&mqtt_broker_port, 65535, DEFAULT_BROKER_PORT as u64);
        let interval = number_or(&update_interval_seconds, u64::MAX, DEFAULT_UPDATE_INTERVAL_SECS);
        Ok(
            ServerConfig {
                api_key: key,
                log_level: text_or(log_level, "INFO"),
                mqtt_broker_host: text_or(mqtt_broker_host, DEFAULT_SERVER_BROKER_HOST),
                mqtt_broker_port: port as u16,
                update_interval_seconds: interval,
            },
        )
    }
}

/// Threshold of the log.
#[derive(Clone, Copy, Debug, PartialEq, Eq, Structural)]
pub enum LogLevel {
    Off,
    Error,
    Warn,
    Info,
    Debug,
    Trace,
}

/// The threshold that `name` stands for, in any mix of cases; `Info` for a
/// name that stands for none.
pub open spec fn spec_log_level(name: Seq<char>) -> LogLevel {
    let upper = ascii_upper(name);
    if upper == "OFF"@ {
        LogLevel::Off
    } else if upper == "ERROR"@ {
        LogLevel::Error
    } else if upper == "WARN"@ {
        LogLevel::Warn
    } else if upper == "INFO"@ {
        LogLevel::Info
    } else if upper == "DEBUG"@ {
        LogLevel::Debug
    } else if upper == "TRACE"@ {
        LogLevel::Trace
    } else {
        LogLevel::Info
    }
}

/// The threshold that `name` stands for.
pub fn log_level_from_name(name: &str) -> (level: LogLevel)
    ensures
        level == spec_log_level(name@),
{
    let upper = to_ascii_upper(name);
    if str_eq(upper.as_str(), "OFF") {
        LogLevel::Off
    } else if str_eq(upper.as_str(), "ERROR") {
        LogLevel::Error
    } else if str_eq(upper.as_str(), "WARN") {
        LogLevel::Warn
    } else if str_eq(upper.as_str(), "INFO") {
        LogLevel::Info
    } else if str_eq(upper.as_str(), "DEBUG") {
        LogLevel::Debug
    } else if str_eq(upper.as_str(), "TRACE") {
        LogLevel::Trace
    } else {
        LogLevel::Info
    }
}

} // verus!

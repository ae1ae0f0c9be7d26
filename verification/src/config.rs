//! The configuration of the bridge: the MQTT broker, the HTTP service and the
//! serial line to the heat pump.

use vstd::prelude::*;

verus! {

/// The baud rate of the serial line, where none is configured.
pub const DEFAULT_BAUD_RATE: u32 = 9600;

/// The time, in milliseconds, that a request may take where none is
/// configured.
pub const DEFAULT_TIMEOUT: u64 = 1000;

/// How the MQTT broker is reached.
#[derive(Debug, Clone, PartialEq)]
pub struct MqttConfig {
    pub client_name: String,
    pub topic: String,
    pub host_name: String,
    pub host_port: u16,
    pub username: String,
    pub password: String,
    pub channel_size: usize,
}

/// Where the HTTP service listens.
#[derive(Clone)]
pub struct HttpConfig {
    pub listen_address: String,
    pub listen_port: u16,
}

/// How the heat pump is reached.
#[derive(Debug, Clone, PartialEq)]
pub struct ThermaConfig {
    pub tty_path: String,
    pub slave_id: u8,
    pub timeout_ms: u64,
}

/// The configuration of the whole bridge.
#[derive(Clone)]
pub struct AppConfig {
    pub http: HttpConfig,
    pub mqtt: MqttConfig,
    pub therma: ThermaConfig,
}

/// The address that the HTTP service binds: the listen address, a colon and
/// the port in decimal.
pub fn listen_address(cfg: &HttpConfig) -> (address: String)
    ensures
        address@ == cfg.listen_address@ + ":"@ + crate::text::decimal_text(cfg.listen_port as nat),
{
    let mut address = crate::text::concat2(cfg.listen_address.as_str(), ":");
    crate::text::push_decimal(&mut address, cfg.listen_port as u64);
    address
}

} // verus!

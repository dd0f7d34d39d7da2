//! Controller for a single heater relay driven over an MQTT command topic.
//!
//! The crate holds the verified core of the device: the protocol state
//! machine that sequences connection, subscription, discovery announcement
//! and command handling (`thermostat`), the translator that turns raw
//! transport notifications into domain events (`mqtt`), and the encoder for
//! the discovery-configuration record together with a proof that the
//! encoding is lossless (`json`). All I/O — the transport client, the
//! output pin, the event channel — lives outside the library and talks to
//! it through plain values.
use vstd::prelude::*;

pub mod json;
pub mod mqtt;
pub mod thermostat;

verus! {

/// Startup configuration of the device: network credentials, the device
/// identifier the topics are derived from, and the broker host.
pub struct Config {
    pub wifi_ssid: String,
    pub wifi_psk: String,
    pub uuid: String,
    pub mqtt_host: String,
}

} // verus!

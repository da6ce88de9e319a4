//! Commands sent to gateways.
use vstd::prelude::*;

verus! {

/// How the MQTT bridge of a gateway checks its server.
#[derive(Debug, Clone)]
pub enum MqttBridgeTlsConf {
    Ca { capath: String },
}

/// The MQTT bridge of a gateway.
#[derive(Debug, Clone)]
pub struct MqttBridgeConf {
    pub address: String,
    pub port: u16,
    pub username: String,
    pub password: String,
    pub active: bool,
    pub tls: Option<MqttBridgeTlsConf>,
}

/// A configuration change.
#[derive(Debug, Clone)]
pub struct ConfUpdate {
    pub mqtt_bridge: MqttBridgeConf,
}

/// A command to a gateway.
#[derive(Debug, Clone)]
pub enum GatewayControlCommand {
    Ping { uid: String },
    /// Blink a LED; the period is given by the IEEE 754 bits of its `f32`.
    Led { uid: String, name: String, pattern: String, period: Option<u32> },
    ConfUpdate { uid: String, conf: ConfUpdate },
}

} // verus!

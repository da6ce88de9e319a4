//! Codecs of the messages that the service exchanges over MQTT.
pub mod gateway_control;
pub mod remote_control;
pub mod report;
pub mod wizzi_macro;

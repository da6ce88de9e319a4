//! The client side of the service: its HTTP API, its MQTT and AMQP feeds,
//! and the codecs of the messages they carry.
pub mod amqp;
pub mod codec;
pub mod http;
pub mod mqtt;

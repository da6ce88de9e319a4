//! Codecs, routing rules and message models of the Applink IoT service.
pub mod common;
pub mod hex_text;
pub mod text;
pub mod xml;
pub mod json;
pub mod mqtt;
pub mod codec;
pub mod http;
pub mod client;

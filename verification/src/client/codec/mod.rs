//! Codecs of the messages that the client exchanges.
pub mod remote_control;
pub mod uid;
pub mod wizzi_macro;

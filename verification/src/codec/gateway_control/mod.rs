//! Control of gateways.
pub mod request;
pub mod response;

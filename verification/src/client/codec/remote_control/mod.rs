//! Remote control of device files, as the client does it.
pub mod request;
pub mod response;

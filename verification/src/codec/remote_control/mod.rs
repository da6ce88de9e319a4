//! Remote control of device files.
pub mod response;

//! Modem files, by firmware version.
pub mod v6_3;

//! Files of the uGuard application.
pub mod common;
pub mod tag;

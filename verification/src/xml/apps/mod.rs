//! Application device files.
pub mod common;
pub mod uguard;

//! Macros: scripted sequences of device operations run by the service.
pub mod request;
pub mod response;

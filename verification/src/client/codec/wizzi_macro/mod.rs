//! Macro requests and the messages a running macro sends back, as the
//! client exchanges them.
pub mod request;
pub mod response;

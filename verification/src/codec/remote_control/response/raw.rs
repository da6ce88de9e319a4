//! Remote control responses as the service writes them in JSON.
use vstd::prelude::*;
use crate::codec::remote_control::response::{Message, Meta};

verus! {

/// The message of a response as written: `status` `OK` with the message,
/// or `ERR` with an error text.
#[derive(Debug, Clone)]
pub enum RawMessage {
    Success(Message),
    Failure { err_msg: String },
}

/// A response as written.
#[derive(Debug, Clone)]
pub struct Response {
    pub meta: Meta,
    pub msg: RawMessage,
}

} // verus!

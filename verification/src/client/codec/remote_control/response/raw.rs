//! Remote control responses as the service writes them in JSON.
use vstd::prelude::*;
use crate::client::codec::remote_control::response::Meta;

verus! {

/// A value as written: a number, or bytes in hexadecimal.
#[derive(Debug, Clone)]
pub enum Value {
    Number(u32),
    Binary { hex: String },
}

/// The message of a successful response as written.
#[derive(Debug, Clone)]
pub struct Message {
    pub value: Option<Value>,
}

/// The message of a response as written: `status` `OK` with the message,
/// or `ERR` with an error text.
#[derive(Debug, Clone)]
pub enum RawMessage {
    Success(Message),
    Failure { err_msg: String },
}

/// A response as written.
#[derive(Debug, Clone)]
pub struct Response {
    pub meta: Meta,
    pub msg: RawMessage,
}

} // verus!

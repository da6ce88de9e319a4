//! Responses of gateways.
use vstd::prelude::*;

verus! {

/// Which gateway answers, and the request it answers.
#[derive(Debug, Clone)]
pub struct Meta {
    pub uid: String,
    pub rid: String,
}

/// The outcome of a command: `OK`, or `ERR` with an error text.
#[derive(Debug, Clone)]
pub enum Message {
    Success,
    Failure { err_msg: String },
}

/// A gateway response.
#[derive(Debug, Clone)]
pub struct Response {
    pub meta: Meta,
    pub msg: Message,
}

} // verus!

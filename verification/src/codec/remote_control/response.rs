//! Responses to remote control requests.
pub mod raw;

use vstd::prelude::*;

verus! {

/// A value read from a device file: a number, or bytes in hexadecimal.
#[derive(Debug, Clone)]
pub enum Value {
    Number(u32),
    Binary { hex: String },
}

/// The message of a successful response.
#[derive(Debug, Clone)]
pub struct Message {
    pub value: Option<Value>,
}

/// Which device, gateway and gateway modem a response is about, and the
/// request it answers.
#[derive(Debug, Clone)]
pub struct Meta {
    pub uid: Option<String>,
    pub guid: Option<String>,
    pub gmuid: Option<String>,
    pub rid: String,
}

/// A response: the message, or the error text of a failed request.
#[derive(Debug)]
pub struct Response {
    pub meta: Meta,
    pub msg: Result<Message, String>,
}

impl Clone for Response {
    fn clone(&self) -> Self {
        let msg = match &self.msg {
            Ok(m) => Ok(m.clone()),
            Err(e) => Err(e.clone()),
        };
        Response { meta: self.meta.clone(), msg }
    }
}

impl Response {
    /// A response from its written form (`From<raw::Response>`): the
    /// metadata as it is, `OK` as the message, `ERR` as its error text.
    pub fn from(raw: raw::Response) -> (r: Response)
        ensures
            r.meta == raw.meta,
            r.msg == match raw.msg {
                raw::RawMessage::Success(m) => Ok::<Message, String>(m),
                raw::RawMessage::Failure { err_msg } => Err(err_msg),
            },
    {
        let raw::Response { meta, msg } = raw;
        let msg = match msg {
            raw::RawMessage::Success(msg) => Ok(msg),
            raw::RawMessage::Failure { err_msg } => Err(err_msg),
        };
        Response { meta, msg }
    }
}

} // verus!

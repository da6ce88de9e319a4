//! Responses to remote control requests, with binary values decoded.
pub mod raw;

use vstd::prelude::*;
use crate::hex_text::{hex_decode, hex_decoded, is_hex};

verus! {

/// Which device, gateway and gateway modem a response is about, and the
/// request it answers.
#[derive(Debug, Clone)]
pub struct Meta {
    pub uid: Option<String>,
    pub guid: Option<String>,
    pub gmuid: Option<String>,
    pub rid: String,
}

/// A value read from a device file: a number, or bytes.
#[derive(Debug, Clone)]
pub enum Value {
    Number(u32),
    Binary(Vec<u8>),
}

/// The message of a successful response.
#[derive(Debug, Clone)]
pub struct Message {
    pub value: Option<Value>,
}

/// A response: the message, or the error text of a failed request.
#[derive(Debug)]
pub struct Response {
    pub meta: Meta,
    pub msg: Result<Message, String>,
}

impl Clone for Response {
    fn clone(&self) -> Self {
        let msg = match &self.msg {
            Ok(m) => Ok(m.clone()),
            Err(e) => Err(e.clone()),
        };
        Response { meta: self.meta.clone(), msg }
    }
}

/// Whether a written value decodes: a number always, bytes when their
/// text is hexadecimal.
pub open spec fn raw_value_decodes(v: raw::Value) -> bool {
    match v {
        raw::Value::Number(_) => true,
        raw::Value::Binary { hex } => is_hex(hex@),
    }
}

/// Whether a written message decodes.
pub open spec fn raw_message_decodes(m: raw::Message) -> bool {
    match m.value {
        Some(v) => raw_value_decodes(v),
        None => true,
    }
}

/// Whether a written response decodes.
pub open spec fn raw_response_decodes(r: raw::Response) -> bool {
    match r.msg {
        raw::RawMessage::Success(m) => raw_message_decodes(m),
        raw::RawMessage::Failure { .. } => true,
    }
}

/// That `v` is the value that the written value `w` stands for.
pub open spec fn value_decoded(w: raw::Value, v: Value) -> bool {
    match (w, v) {
        (raw::Value::Number(a), Value::Number(b)) => a == b,
        (raw::Value::Binary { hex }, Value::Binary(b)) => b@ == hex_decoded(hex@),
        _ => false,
    }
}

/// That `m` is the message that the written message `w` stands for.
pub open spec fn message_decoded(w: raw::Message, m: Message) -> bool {
    match (w.value, m.value) {
        (Some(a), Some(b)) => value_decoded(a, b),
        (None, None) => true,
        _ => false,
    }
}

/// That `r` is the response that the written response `w` stands for.
pub open spec fn response_decoded(w: raw::Response, r: Response) -> bool {
    &&& r.meta == w.meta
    &&& match (w.msg, r.msg) {
        (raw::RawMessage::Success(a), Ok(b)) => message_decoded(a, b),
        (raw::RawMessage::Failure { err_msg }, Err(e)) => e == err_msg,
        _ => false,
    }
}

/// A read response keeps what was written: its metadata, an `ERR` as the
/// error text, and an `OK` as a message whose number is the written number
/// and whose bytes are those the written hexadecimal text stands for.
pub proof fn lemma_response_read(w: raw::Response, r: Response)
    requires
        response_decoded(w, r),
    ensures
        r.meta == w.meta,
        r.msg is Ok <==> w.msg is Success,
        w.msg matches raw::RawMessage::Failure { err_msg } ==> r.msg == Err::<Message, String>(
            err_msg,
        ),
        w.msg matches raw::RawMessage::Success(m) ==> (r.msg matches Ok(rm) && (rm.value is Some
            <==> m.value is Some)),
        w.msg matches raw::RawMessage::Success(m) ==> (m.value matches Some(raw::Value::Number(a))
            ==> r.msg == Ok::<Message, String>((Message { value: Some(Value::Number(a)) }))),
        w.msg matches raw::RawMessage::Success(m) ==> (m.value matches Some(
            raw::Value::Binary { hex },
        ) ==> (r.msg matches Ok(rm) && rm.value matches Some(Value::Binary(b)) && b@
            == hex_decoded(hex@))),
{
}

impl Value {
    /// A value from its written form (`TryFrom<raw::Value>`): bytes are
    /// decoded from hexadecimal.
    pub fn try_from(raw: raw::Value) -> (r: Result<Value, hex::FromHexError>)
        ensures
            r is Ok <==> raw_value_decodes(raw),
            r matches Ok(v) ==> value_decoded(raw, v),
    {
        match raw {
            raw::Value::Number(n) => Ok(Value::Number(n)),
            raw::Value::Binary { hex } => match hex_decode(hex.as_str()) {
                Ok(b) => Ok(Value::Binary(b)),
                Err(e) => Err(e),
            },
        }
    }
}

impl Message {
    /// A message from its written form (`TryFrom<raw::Message>`).
    pub fn try_from(raw: raw::Message) -> (r: Result<Message, hex::FromHexError>)
        ensures
            r is Ok <==> raw_message_decodes(raw),
            r matches Ok(m) ==> message_decoded(raw, m),
    {
        let raw::Message { value } = raw;
        let value = match value {
            Some(value) => match Value::try_from(value) {
                Ok(v) => Some(v),
                Err(e) => return Err(e),
            },
            None => None,
        };
        Ok(Message { value })
    }
}

impl Response {
    /// A response from its written form (`TryFrom<raw::Response>`): the
    /// metadata as it is, `OK` as the decoded message, `ERR` as its error
    /// text.
    pub fn try_from(raw: raw::Response) -> (r: Result<Response, hex::FromHexError>)
        ensures
            r is Ok <==> raw_response_decodes(raw),
            r matches Ok(resp) ==> response_decoded(raw, resp),
    {
        let raw::Response { meta, msg } = raw;
        let msg = match msg {
            raw::RawMessage::Success(m) => match Message::try_from(m) {
                Ok(m) => Ok(m),
                Err(e) => return Err(e),
            },
            raw::RawMessage::Failure { err_msg } => Err(err_msg),
        };
        Ok(Response { meta, msg })
    }
}

/// Why a response could not be read.
#[derive(Debug, Clone)]
pub enum ResponseError {
    /// The text is not a response in JSON; the text says why.
    Json(String),
    /// A binary value is not hexadecimal.
    Hex(hex::FromHexError),
}

/// Reads a response from the outcome of parsing its JSON text (`parse`
/// after the JSON step): a parse error stays a JSON error, and a parsed
/// response is decoded.
pub fn parse_parsed(parsed: Result<raw::Response, String>) -> (r: Result<Response, ResponseError>)
    ensures
        match parsed {
            Err(msg) => r matches Err(ResponseError::Json(m)) && m == msg,
            Ok(w) => (r is Ok <==> raw_response_decodes(w)) && (r matches Ok(resp)
                ==> response_decoded(w, resp)) && (r is Err ==> r matches Err(
                ResponseError::Hex(_),
            )),
        },
{
    match parsed {
        Err(msg) => Err(ResponseError::Json(msg)),
        Ok(w) => match Response::try_from(w) {
            Ok(resp) => Ok(resp),
            Err(e) => Err(ResponseError::Hex(e)),
        },
    }
}

} // verus!

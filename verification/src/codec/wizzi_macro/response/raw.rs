//! Macro responses as the service writes them in JSON.
use vstd::prelude::*;
use crate::codec::wizzi_macro::response::{Meta, Status};

verus! {

/// The outcome for one device as written: `OK` or `ERROR`.
#[derive(Debug, Clone, Copy, PartialEq, Eq, Structural)]
pub enum Dstatus {
    Success,
    Error,
}

/// A macro message as written, tagged by its `type`.
#[derive(Debug, Clone)]
pub enum Message {
    Status { status: Status },
    /// Progress, by the IEEE 754 bits of its `f64`.
    Log { progress: u64 },
    Dstatus { uid: String, dstatus: Dstatus, err: Option<String> },
}

/// A macro response as written.
#[derive(Debug, Clone)]
pub struct Response {
    pub meta: Meta,
    pub msg: Message,
}

} // verus!

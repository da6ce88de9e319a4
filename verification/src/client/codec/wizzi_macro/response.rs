//! The messages a running macro sends back to the client: its start, its
//! end or the error that stopped it, its progress, and the outcome for each
//! device.
pub mod raw;

use vstd::prelude::*;
pub use crate::codec::wizzi_macro::response::Meta;

verus! {

/// How a macro stands: started, ended, or stopped by an error.
#[derive(Debug, Clone)]
pub enum Status {
    Start,
    End,
    Error { err: String },
}

/// A macro message.
#[derive(Debug, Clone)]
pub enum Message {
    Status { status: Status },
    /// Progress, by the IEEE 754 bits of its `f64`.
    Log { progress: u64 },
    DstatusOk { uid: String },
    DstatusError { uid: String, err: String },
}

/// A macro response.
#[derive(Debug, Clone)]
pub struct Response {
    pub meta: Meta,
    pub msg: Message,
}

/// Why a macro response is refused.
#[derive(Debug, Clone)]
pub enum ResponseError {
    /// The text is not JSON of the expected shape; the text of the error says why.
    Json(String),
    /// A device error without its error text.
    BadRaw(raw::Response),
}

impl Response {
    /// What reading a written macro response gives: a device `ERROR` must
    /// carry its error text, and a response without it is handed back as it
    /// is.
    pub open spec fn try_from_spec(raw: raw::Response) -> Result<Response, raw::Response> {
        match raw.msg {
            raw::Message::Status { status } => Ok(
                Response { meta: raw.meta, msg: Message::Status { status } },
            ),
            raw::Message::Log { progress } => Ok(
                Response { meta: raw.meta, msg: Message::Log { progress } },
            ),
            raw::Message::Dstatus { uid, dstatus, err } => match dstatus {
                raw::Dstatus::Success => Ok(
                    Response { meta: raw.meta, msg: Message::DstatusOk { uid } },
                ),
                raw::Dstatus::Error => match err {
                    Some(e) => Ok(
                        Response { meta: raw.meta, msg: Message::DstatusError { uid, err: e } },
                    ),
                    None => Err(raw),
                },
            },
        }
    }

    /// Reads a macro response (`TryFrom<raw::Response>`).
    pub fn try_from(raw: raw::Response) -> (r: Result<Response, raw::Response>)
        ensures
            r == Response::try_from_spec(raw),
    {
        let raw::Response { meta, msg } = raw;
        let msg = match msg {
            raw::Message::Status { status } => Message::Status { status },
            raw::Message::Log { progress } => Message::Log { progress },
            raw::Message::Dstatus { uid, dstatus, err } => match dstatus {
                raw::Dstatus::Success => Message::DstatusOk { uid },
                raw::Dstatus::Error => match err {
                    Some(e) => Message::DstatusError { uid, err: e },
                    None => {
                        return Err(
                            raw::Response {
                                meta,
                                msg: raw::Message::Dstatus { uid, dstatus, err: None },
                            },
                        );
                    },
                },
            },
        };
        Ok(Response { meta, msg })
    }

    /// Reads a macro response from the outcome of parsing its JSON text
    /// (`Response::parse` after the JSON step): a parse error is a JSON
    /// error, and a parsed response without the error text it needs is a
    /// bad response.
    pub fn parse_parsed(parsed: Result<raw::Response, String>) -> (r: Result<Response, ResponseError>)
        ensures
            match parsed {
                Err(m) => r matches Err(ResponseError::Json(e)) && e == m,
                Ok(w) => match Response::try_from_spec(w) {
                    Ok(resp) => r == Ok::<Response, ResponseError>(resp),
                    Err(b) => r == Err::<Response, ResponseError>(ResponseError::BadRaw(b)),
                },
            },
    {
        match parsed {
            Err(m) => Err(ResponseError::Json(m)),
            Ok(w) => match Response::try_from(w) {
                Ok(resp) => Ok(resp),
                Err(b) => Err(ResponseError::BadRaw(b)),
            },
        }
    }
}

/// A read macro message says what was written: its request, its status
/// and progress as they are, a device status of success as that device's
/// success, and a device error with its text as that device's error with
/// that text.
pub proof fn lemma_read_messages(w: raw::Response, r: Response)
    requires
        Response::try_from_spec(w) == Ok::<Response, raw::Response>(r),
    ensures
        r.meta == w.meta,
        (r.msg is DstatusOk <==> (w.msg matches raw::Message::Dstatus {
            dstatus: raw::Dstatus::Success,
            ..
        })),
        (r.msg is DstatusError <==> (w.msg matches raw::Message::Dstatus {
            dstatus: raw::Dstatus::Error,
            ..
        })),
        (w.msg matches raw::Message::Dstatus { uid, dstatus: raw::Dstatus::Success, .. }
            ==> r.msg == (Message::DstatusOk { uid })),
        (w.msg matches raw::Message::Dstatus { uid, dstatus: raw::Dstatus::Error, err: Some(e) }
            ==> r.msg == (Message::DstatusError { uid, err: e })),
        (w.msg matches raw::Message::Status { status } ==> r.msg == (Message::Status { status })),
        (w.msg matches raw::Message::Log { progress } ==> r.msg == (Message::Log { progress })),
{
}

/// A written macro message is refused exactly when it is a device error
/// without its error text, and it is then handed back unchanged.
pub proof fn lemma_refused_messages(w: raw::Response)
    ensures
        (Response::try_from_spec(w) is Err <==> (w.msg matches raw::Message::Dstatus {
            dstatus: raw::Dstatus::Error,
            err: None,
            ..
        })),
        Response::try_from_spec(w) matches Err(b) ==> b == w,
{
}

} // verus!

//! Remote control requests: read a device file, or write a value into it.
pub mod raw;

use vstd::prelude::*;
pub use crate::common::Dash7boardPermission;
use crate::json::JsonNumber;

verus! {

/// A value to write: an integer, a float (by the IEEE 754 bits of its
/// `f64`), or raw bytes.
#[derive(Debug, Clone)]
pub enum Data {
    Integer(i64),
    Float(u64),
    Raw(Vec<u8>),
}

/// What a request does to the file.
#[derive(Debug, Clone)]
pub enum Action {
    Read,
    Write(Data),
}

/// The gateway modem that carries a request: chosen by the service, or
/// named.
#[derive(Debug, Clone)]
pub enum GatewayModemUid {
    Auto,
    Uid(String),
}

/// How a gateway modem choice is written: `auto`, or the identifier.
pub open spec fn gmuid_text(g: GatewayModemUid) -> Seq<char> {
    match g {
        GatewayModemUid::Auto => seq!['a', 'u', 't', 'o'],
        GatewayModemUid::Uid(s) => s@,
    }
}

/// The automatic choice is written `auto`, and a named modem as its
/// identifier.
pub proof fn lemma_gmuid_text(g: GatewayModemUid)
    ensures
        g is Auto ==> gmuid_text(g) == seq!['a', 'u', 't', 'o'],
        g matches GatewayModemUid::Uid(s) ==> gmuid_text(g) == s@,
{
}

impl GatewayModemUid {
    /// The text this choice is written as (its `Serialize` form).
    pub fn text(&self) -> (r: String)
        ensures
            r@ == gmuid_text(*self),
    {
        match self {
            GatewayModemUid::Auto => {
                proof {
                    reveal_strlit("auto");
                }
                "auto".to_string()
            },
            GatewayModemUid::Uid(s) => s.clone(),
        }
    }
}

/// A request on the file `fid` (named `field_name`) of the device `uid`.
#[derive(Debug, Clone)]
pub struct Request {
    pub action: Action,
    pub user_type: Dash7boardPermission,
    pub gmuid: GatewayModemUid,
    pub uid: String,
    pub fid: u8,
    pub field_name: String,
}

/// Whether the `f64` with these bits is finite: its exponent is not all
/// ones.
pub open spec fn f64_bits_finite(bits: u64) -> bool {
    (bits >> 52u64) & 0x7ffu64 != 0x7ffu64
}

/// The JSON number an integer becomes (`serde_json::Number::from`): a
/// non-negative integer as such, a negative one as a negative integer.
pub open spec fn json_number_of_i64(i: i64) -> JsonNumber {
    if i < 0 {
        JsonNumber::NegInt(i)
    } else {
        JsonNumber::PosInt(i as u64)
    }
}

/// The JSON number an integer becomes.
pub fn json_number_from_i64(i: i64) -> (r: JsonNumber)
    ensures
        r == json_number_of_i64(i),
{
    if i < 0 {
        JsonNumber::NegInt(i)
    } else {
        JsonNumber::PosInt(i as u64)
    }
}

/// The JSON number a float becomes (`serde_json::Number::from_f64`):
/// none when it is infinite or not a number.
pub fn json_number_from_f64_bits(bits: u64) -> (r: Option<JsonNumber>)
    ensures
        r == (if f64_bits_finite(bits) {
            Some(JsonNumber::Float(bits))
        } else {
            None::<JsonNumber>
        }),
{
    if (bits >> 52u64) & 0x7ffu64 != 0x7ffu64 {
        Some(JsonNumber::Float(bits))
    } else {
        None
    }
}

/// Why a request cannot be sent.
#[derive(Debug, Clone)]
pub enum BadRequest {
    /// The float to write (by its bits) has no JSON form.
    BadValue(u64),
    /// The request could not be written as JSON; the text says why.
    BadJson(String),
}

impl Request {
    /// The request in the form it is sent, or the float that JSON cannot
    /// carry.
    pub fn to_raw(self) -> (r: Result<raw::Request, BadRequest>)
        ensures
            match r {
                Ok(raw) => raw::raw_request_of(self) == Ok::<raw::Request, u64>(raw),
                Err(e) => raw::raw_request_of(self) matches Err(bits) && e == BadRequest::BadValue(
                    bits,
                ),
            },
    {
        match raw::Request::try_from(self) {
            Ok(raw) => Ok(raw),
            Err(bits) => Err(BadRequest::BadValue(bits)),
        }
    }
}

} // verus!

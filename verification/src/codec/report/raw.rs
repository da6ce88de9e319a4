//! Reports as the service writes them in JSON, field by field; the app reads
//! these with `serde_json` and hands them over as they are.
use vstd::prelude::*;

verus! {

/// The metadata of a report as written.
#[derive(Debug, Clone)]
pub struct Meta {
    pub uid: String,
    pub guid: String,
    pub gmuid: String,
    pub lb: u8,
    pub fid: u8,
    pub fname: String,
    /// The device type as hexadecimal text, least significant byte first.
    pub device_type: String,
    pub site_id: u16,
    pub lqual: u8,
    pub offset: u32,
    pub roaming: bool,
    pub ct: String,
    /// The frequency, by the IEEE 754 bits of its `f64`.
    pub freq: u64,
    pub status: u32,
    pub s_status: u8,
    pub a_status: u8,
    pub timestamp: i64,
}

/// A field of a known report as written.
#[derive(Debug, Clone)]
pub enum DataValue {
    PositiveInteger(u64),
    NegativeInteger(i64),
    /// A number that is not an integer, by the IEEE 754 bits of its `f64`.
    Float(u64),
    Raw { hex: String },
    /// Named bit fields (see [`raw_value_names_distinct`](crate::codec::report::raw_value_names_distinct)).
    BitFields(Vec<(String, u64)>),
}

/// A report of a known file: its fields by name; reading it asks that each
/// name occurs once ([`report_names_distinct`](crate::codec::report::report_names_distinct)).
#[derive(Debug, Clone)]
pub struct KnownReport {
    pub meta: Meta,
    pub msg: Vec<(String, DataValue)>,
}

/// The payload of a raw report as written: an offset and hexadecimal bytes.
#[derive(Debug, Clone)]
pub struct RawReportMsg {
    pub offset: u32,
    pub payload: String,
}

/// A report of a file that the service does not decode.
#[derive(Debug, Clone)]
pub struct RawReport {
    pub meta: Meta,
    pub rmsg: RawReportMsg,
}

/// A report as written: decoded fields, or raw bytes.
#[derive(Debug, Clone)]
pub enum Report {
    Known(KnownReport),
    Raw(RawReport),
}

} // verus!

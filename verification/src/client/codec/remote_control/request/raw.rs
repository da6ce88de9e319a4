//! Remote control requests as they are written in JSON.
use vstd::prelude::*;
use crate::client::codec::remote_control::request::{
    f64_bits_finite, json_number_from_f64_bits, json_number_from_i64, json_number_of_i64,
    Action as RequestAction, Dash7boardPermission, Data, GatewayModemUid, Request as Command,
};
use crate::json::JsonNumber;

verus! {

/// Read (`R`) or write (`W`).
#[derive(Debug, Clone, Copy, PartialEq, Eq, Structural)]
pub enum Action {
    Read,
    Write,
}

/// A request as written: the bytes to write go in `data`, a number in
/// `value`.
#[derive(Debug, Clone)]
pub struct Request {
    pub action: Action,
    pub user_type: Dash7boardPermission,
    pub gmuid: GatewayModemUid,
    pub uid: String,
    pub fid: u8,
    pub field_name: String,
    pub data: Option<Vec<u8>>,
    pub value: Option<JsonNumber>,
}

/// The written form of a request, or the bits of the float that has none.
pub open spec fn raw_request_of(cmd: Command) -> Result<Request, u64> {
    let head = |data: Option<Vec<u8>>, value: Option<JsonNumber>, action: Action|
        Request {
            action,
            user_type: cmd.user_type,
            gmuid: cmd.gmuid,
            uid: cmd.uid,
            fid: cmd.fid,
            field_name: cmd.field_name,
            data,
            value,
        };
    match cmd.action {
        RequestAction::Read => Ok(head(None, None, Action::Read)),
        RequestAction::Write(Data::Integer(i)) => Ok(
            head(None, Some(json_number_of_i64(i)), Action::Write),
        ),
        RequestAction::Write(Data::Float(bits)) => if f64_bits_finite(bits) {
            Ok(head(None, Some(JsonNumber::Float(bits)), Action::Write))
        } else {
            Err(bits)
        },
        RequestAction::Write(Data::Raw(r)) => Ok(head(Some(r), None, Action::Write)),
    }
}

impl Request {
    /// The written form of a request (`TryFrom<Request>`): refused, with
    /// the float's bits, when the value to write is a float that is not
    /// finite.
    pub fn try_from(cmd: Command) -> (r: Result<Request, u64>)
        ensures
            r == raw_request_of(cmd),
    {
        let ghost c = cmd;
        let (data, value, action) = match cmd.action {
            RequestAction::Read => (None, None, Action::Read),
            RequestAction::Write(Data::Integer(i)) => (
                None,
                Some(json_number_from_i64(i)),
                Action::Write,
            ),
            RequestAction::Write(Data::Float(bits)) => match json_number_from_f64_bits(bits) {
                Some(n) => (None, Some(n), Action::Write),
                None => return Err(bits),
            },
            RequestAction::Write(Data::Raw(r)) => (Some(r), None, Action::Write),
        };
        Ok(
            Request {
                action,
                user_type: cmd.user_type,
                gmuid: cmd.gmuid,
                uid: cmd.uid,
                fid: cmd.fid,
                field_name: cmd.field_name,
                data,
                value,
            },
        )
    }
}

/// A command is written with the action it asks for: a read as a read
/// with neither data nor value; every write as a write, raw bytes as its
/// data, an integer as a value that reads back as that integer, a float as
/// a value holding that float; the other fields are copied.
pub proof fn lemma_written_form(cmd: Command, w: Request)
    requires
        raw_request_of(cmd) == Ok::<Request, u64>(w),
    ensures
        w.action == Action::Read <==> cmd.action is Read,
        w.action == Action::Write <==> cmd.action is Write,
        cmd.action is Read ==> w.data is None && w.value is None,
        cmd.action matches RequestAction::Write(Data::Raw(d)) ==> w.data == Some(d) && w.value
            is None,
        cmd.action matches RequestAction::Write(Data::Integer(i)) ==> w.data is None && (
        w.value matches Some(n) && n.spec_as_i64() == Some(i)),
        cmd.action matches RequestAction::Write(Data::Float(bits)) ==> w.data is None && w.value
            == Some(JsonNumber::Float(bits)),
        w.user_type == cmd.user_type,
        w.gmuid == cmd.gmuid,
        w.uid == cmd.uid,
        w.fid == cmd.fid,
        w.field_name == cmd.field_name,
{
}

/// A command cannot be written exactly when it writes a float that is
/// infinite or not a number; the refusal carries that float's bits.
pub proof fn lemma_refused_commands(cmd: Command)
    ensures
        raw_request_of(cmd) is Err <==> (cmd.action matches RequestAction::Write(Data::Float(b))
            && !f64_bits_finite(b)),
        raw_request_of(cmd) matches Err(b) ==> cmd.action == RequestAction::Write(Data::Float(b)),
{
}

} // verus!

use applink::client::codec::remote_control::request::raw as req_raw;
use applink::client::codec::remote_control::request::{
    json_number_from_f64_bits, json_number_from_i64, Action, BadRequest, Dash7boardPermission,
    Data, GatewayModemUid, Request,
};
use applink::client::codec::remote_control::response::raw as resp_raw;
use applink::client::codec::remote_control::response::{
    parse_parsed, Message, Meta, Response, ResponseError, Value,
};
use applink::codec::remote_control::response as legacy;
use applink::json::JsonNumber;

fn request(action: Action) -> Request {
    Request {
        action,
        user_type: Dash7boardPermission::Admin,
        gmuid: GatewayModemUid::Auto,
        uid: "001BC50C70010EDE".to_string(),
        fid: 0,
        field_name: "uid".to_string(),
    }
}

fn meta() -> Meta {
    Meta {
        uid: Some("001BC50C71006FD7".to_string()),
        guid: Some("001BC50C71004102".to_string()),
        gmuid: Some("001BC50C71004102".to_string()),
        rid: "0-1".to_string(),
    }
}

#[test]
fn gateway_modem_uid_text() {
    assert_eq!(GatewayModemUid::Auto.text(), "auto");
    assert_eq!(GatewayModemUid::Uid("001BC50C71004102".to_string()).text(), "001BC50C71004102");
}

#[test]
fn json_numbers() {
    assert_eq!(json_number_from_i64(-4), JsonNumber::NegInt(-4));
    assert_eq!(json_number_from_i64(4), JsonNumber::PosInt(4));
    assert_eq!(json_number_from_i64(0), JsonNumber::PosInt(0));
    let bits = 2.5f64.to_bits();
    assert_eq!(json_number_from_f64_bits(bits), Some(JsonNumber::Float(bits)));
    assert_eq!(json_number_from_f64_bits(f64::INFINITY.to_bits()), None);
    assert_eq!(json_number_from_f64_bits(f64::NAN.to_bits()), None);
}

#[test]
fn read_request_has_no_value() {
    let r = req_raw::Request::try_from(request(Action::Read)).unwrap();
    assert_eq!(r.action, req_raw::Action::Read);
    assert!(r.data.is_none());
    assert!(r.value.is_none());
    assert_eq!(r.uid, "001BC50C70010EDE");
    assert_eq!(r.field_name, "uid");
}

#[test]
fn write_requests() {
    let r = req_raw::Request::try_from(request(Action::Write(Data::Integer(-7)))).unwrap();
    assert_eq!(r.action, req_raw::Action::Write);
    assert_eq!(r.value, Some(JsonNumber::NegInt(-7)));
    assert!(r.data.is_none());
    let r = req_raw::Request::try_from(request(Action::Write(Data::Raw(vec![1, 2])))).unwrap();
    assert_eq!(r.data, Some(vec![1, 2]));
    assert!(r.value.is_none());
    let bits = 0.5f64.to_bits();
    let r = req_raw::Request::try_from(request(Action::Write(Data::Float(bits)))).unwrap();
    assert_eq!(r.value, Some(JsonNumber::Float(bits)));
}

#[test]
fn infinite_float_is_refused() {
    let bits = f64::NEG_INFINITY.to_bits();
    assert_eq!(req_raw::Request::try_from(request(Action::Write(Data::Float(bits)))).err(), Some(bits));
    match request(Action::Write(Data::Float(bits))).to_raw() {
        Err(BadRequest::BadValue(b)) => assert_eq!(b, bits),
        other => panic!("unexpected {:?}", other),
    }
}

#[test]
fn response_values_are_decoded() {
    assert!(matches!(Value::try_from(resp_raw::Value::Number(3)), Ok(Value::Number(3))));
    match Value::try_from(resp_raw::Value::Binary { hex: "001BC50C70010EDE".to_string() }) {
        Ok(Value::Binary(b)) => assert_eq!(b, vec![0x00, 0x1B, 0xC5, 0x0C, 0x70, 0x01, 0x0E, 0xDE]),
        other => panic!("unexpected {:?}", other),
    }
    assert!(Value::try_from(resp_raw::Value::Binary { hex: "abc".to_string() }).is_err());
    let m = Message::try_from(resp_raw::Message { value: None }).unwrap();
    assert!(m.value.is_none());
}

#[test]
fn response_outcomes() {
    let ok = resp_raw::Response { meta: meta(), msg: resp_raw::RawMessage::Success(resp_raw::Message { value: None }) };
    let r = Response::try_from(ok).unwrap();
    assert_eq!(r.meta.rid, "0-1");
    assert_eq!(r.meta.uid, Some("001BC50C71006FD7".to_string()));
    assert!(matches!(r.msg, Ok(Message { value: None })));
    let err = resp_raw::Response { meta: meta(), msg: resp_raw::RawMessage::Failure { err_msg: "timeout".to_string() } };
    match Response::try_from(err).unwrap().msg {
        Err(e) => assert_eq!(e, "timeout"),
        other => panic!("unexpected {:?}", other),
    }
}

#[test]
fn response_parse_parsed_outcomes() {
    assert!(matches!(parse_parsed(Err("eof".to_string())), Err(ResponseError::Json(m)) if m == "eof"));
    let bad = resp_raw::Response {
        meta: meta(),
        msg: resp_raw::RawMessage::Success(resp_raw::Message { value: Some(resp_raw::Value::Binary { hex: "x".to_string() }) }),
    };
    assert!(matches!(parse_parsed(Ok(bad)), Err(ResponseError::Hex(_))));
}

#[test]
fn legacy_response_from_raw() {
    let raw = legacy::raw::Response {
        meta: legacy::Meta { uid: None, guid: None, gmuid: None, rid: "1-2".to_string() },
        msg: legacy::raw::RawMessage::Success(legacy::Message { value: Some(legacy::Value::Number(9)) }),
    };
    let r = legacy::Response::from(raw);
    assert_eq!(r.meta.rid, "1-2");
    assert!(matches!(r.msg, Ok(legacy::Message { value: Some(legacy::Value::Number(9)) })));
    let raw = legacy::raw::Response {
        meta: legacy::Meta { uid: None, guid: None, gmuid: None, rid: "1-3".to_string() },
        msg: legacy::raw::RawMessage::Failure { err_msg: "no".to_string() },
    };
    assert!(matches!(legacy::Response::from(raw).msg, Err(e) if e == "no"));
}

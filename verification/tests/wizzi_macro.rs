use applink::client::codec::wizzi_macro::response as cm;
use applink::client::mqtt::{macro_answer, macro_error, macro_outcomes, MacroAnswer, Unsolicited};
use applink::codec::wizzi_macro::response::raw;
use applink::codec::wizzi_macro::response::{Message, Meta, Response, ResponseError, Status};

fn resp(rid: &str, msg: cm::Message) -> cm::Response {
    cm::Response { meta: Meta { rid: rid.to_string() }, msg }
}

fn raw_resp(msg: raw::Message) -> raw::Response {
    raw::Response { meta: Meta { rid: "r".to_string() }, msg }
}

#[test]
fn raw_messages_are_read() {
    assert!(matches!(
        Response::try_from(raw_resp(raw::Message::Status { status: Status::Start })),
        Ok(Response { msg: Message::Status { status: Status::Start }, .. })
    ));
    assert!(matches!(
        Response::try_from(raw_resp(raw::Message::Log { progress: 100.0f64.to_bits() })),
        Ok(Response { msg: Message::Log { progress }, .. }) if progress == 100.0f64.to_bits()
    ));
    assert!(matches!(
        Response::try_from(raw_resp(raw::Message::Dstatus { uid: "d".to_string(), dstatus: raw::Dstatus::Success, err: None })),
        Ok(Response { msg: Message::DstatusOk { uid }, .. }) if uid == "d"
    ));
    assert!(matches!(
        Response::try_from(raw_resp(raw::Message::Dstatus { uid: "d".to_string(), dstatus: raw::Dstatus::Error, err: Some("e".to_string()) })),
        Ok(Response { msg: Message::DstatusError { uid, err }, .. }) if uid == "d" && err == "e"
    ));
}

#[test]
fn error_without_text_is_refused() {
    let r = Response::try_from(raw_resp(raw::Message::Dstatus { uid: "d".to_string(), dstatus: raw::Dstatus::Error, err: None }));
    assert!(matches!(r, Err(raw::Response { msg: raw::Message::Dstatus { err: None, .. }, .. })));
    let p = Response::parse_parsed(Ok(raw_resp(raw::Message::Dstatus { uid: "d".to_string(), dstatus: raw::Dstatus::Error, err: None })));
    assert!(matches!(p, Err(ResponseError::BadRaw(_))));
    assert!(matches!(Response::parse_parsed(Err("bad".to_string())), Err(ResponseError::Json(m)) if m == "bad"));
}

#[test]
fn outcomes_keep_the_last_status_of_each_device() {
    let rs = vec![
        resp("r", cm::Message::Status { status: cm::Status::Start }),
        resp("r", cm::Message::DstatusOk { uid: "a".to_string() }),
        resp("r", cm::Message::DstatusError { uid: "b".to_string(), err: "timeout".to_string() }),
        resp("r", cm::Message::Log { progress: 50.0f64.to_bits() }),
        resp("r", cm::Message::DstatusError { uid: "a".to_string(), err: "late".to_string() }),
        resp("r", cm::Message::Status { status: cm::Status::End }),
    ];
    let mut out = macro_outcomes(&rs);
    out.sort_by(|x, y| x.0.cmp(&y.0));
    assert_eq!(
        out,
        vec![
            ("a".to_string(), Err("late".to_string())),
            ("b".to_string(), Err("timeout".to_string())),
        ]
    );
    assert!(macro_outcomes(&vec![]).is_empty());
}

#[test]
fn macro_answers() {
    let u = Unsolicited::Macro(resp("1-0-1", cm::Message::Status { status: cm::Status::Start }));
    assert!(matches!(macro_answer(u, "1-0-1"), MacroAnswer::Forward(_)));
    let u = Unsolicited::Macro(resp("1-0-1", cm::Message::Status { status: cm::Status::End }));
    assert!(matches!(macro_answer(u, "1-0-1"), MacroAnswer::Last(_)));
    let u = Unsolicited::Macro(resp("1-0-2", cm::Message::Status { status: cm::Status::End }));
    assert!(matches!(macro_answer(u, "1-0-1"), MacroAnswer::Ignore));
    assert!(matches!(macro_answer(Unsolicited::Connect, "1-0-1"), MacroAnswer::Ignore));
}

#[test]
fn an_error_status_ends_the_macro() {
    let err = || cm::Message::Status { status: cm::Status::Error { err: "no gateway".to_string() } };
    let u = Unsolicited::Macro(resp("1-0-1", err()));
    match macro_answer(u, "1-0-1") {
        MacroAnswer::Last(r) => assert!(matches!(r.msg, cm::Message::Status { status: cm::Status::Error { err } } if err == "no gateway")),
        other => panic!("unexpected {:?}", other),
    }
    let u = Unsolicited::Macro(resp("1-0-2", err()));
    assert!(matches!(macro_answer(u, "1-0-1"), MacroAnswer::Ignore));
}

#[test]
fn macro_error_is_the_last_error_status() {
    let rs = vec![
        resp("r", cm::Message::Status { status: cm::Status::Start }),
        resp("r", cm::Message::Status { status: cm::Status::Error { err: "first".to_string() } }),
        resp("r", cm::Message::Status { status: cm::Status::Error { err: "second".to_string() } }),
        resp("r", cm::Message::DstatusOk { uid: "a".to_string() }),
    ];
    assert_eq!(macro_error(&rs), Some("second".to_string()));
    let ok = vec![
        resp("r", cm::Message::Status { status: cm::Status::Start }),
        resp("r", cm::Message::Status { status: cm::Status::End }),
    ];
    assert_eq!(macro_error(&ok), None);
}

#[test]
fn client_raw_messages_are_read() {
    let raw = cm::raw::Response {
        meta: Meta { rid: "r".to_string() },
        msg: cm::raw::Message::Status { status: cm::Status::Error { err: "e".to_string() } },
    };
    assert!(matches!(
        cm::Response::try_from(raw),
        Ok(cm::Response { msg: cm::Message::Status { status: cm::Status::Error { err } }, .. }) if err == "e"
    ));
    let raw = cm::raw::Response {
        meta: Meta { rid: "r".to_string() },
        msg: cm::raw::Message::Dstatus { uid: "d".to_string(), dstatus: cm::raw::Dstatus::Error, err: None },
    };
    assert!(matches!(cm::Response::parse_parsed(Ok(raw)), Err(cm::ResponseError::BadRaw(_))));
    assert!(matches!(cm::Response::parse_parsed(Err("x".to_string())), Err(cm::ResponseError::Json(m)) if m == "x"));
}

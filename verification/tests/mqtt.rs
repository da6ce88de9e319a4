use applink::client::codec::remote_control::response::{Message, Meta, Response};
use applink::client::mqtt as client;
use applink::codec::report::ReportParseError;
use applink::mqtt::{
    make_remote_control_request_topic, remote_control_answer, report_unsolicited, route,
    subscription, Backend, BadFormat, Incoming, MaintainResult, MqttEvent, RequestIds,
    Unsolicited,
};

fn publish(topic: &str, payload: &[u8]) -> MqttEvent {
    MqttEvent::Publish { topic: topic.to_string(), payload: payload.to_vec() }
}

#[test]
fn topics() {
    assert_eq!(subscription("acme"), "/applink/acme/#");
    assert_eq!(
        make_remote_control_request_topic("acme", "0-1"),
        "/applink/acme/remotectrl/request/0-1"
    );
    assert_eq!(client::remote_control_topic("acme", "5-0-1"), "/applink/acme/remotectrl/request/5-0-1");
    assert_eq!(client::macro_topic("acme", "5-0-2"), "/applink/acme/macro/request/5-0-2");
}

#[test]
fn legacy_routing() {
    assert!(matches!(route("acme", publish("/applink/acme/report/1/2", b"{}")), Incoming::ParseReport(d) if d == b"{}"));
    assert!(matches!(
        route("acme", publish("/applink/acme/remotectrl/response/0-1", b"x")),
        Incoming::ParseRemoteControl(d) if d == b"x"
    ));
    assert!(matches!(route("acme", publish("/applink/other/report", b"")), Incoming::UnknownTopic(t) if t == "/applink/other/report"));
    assert!(matches!(route("acme", MqttEvent::ConnAck), Incoming::Deliver(Unsolicited::Connect)));
    assert!(matches!(route("acme", MqttEvent::Disconnect), Incoming::Deliver(Unsolicited::Disconnect)));
    assert!(matches!(route("acme", MqttEvent::Other), Incoming::Skip));
}

#[test]
fn legacy_bad_report_keeps_payload() {
    let u = report_unsolicited(Err(ReportParseError::Json("eof".to_string())), vec![1, 2]);
    assert!(matches!(u, Unsolicited::BadFormat(BadFormat::Report(d)) if d == vec![1, 2]));
}

#[test]
fn legacy_remote_control_answer_takes_first_response() {
    let resp = Response { meta: Meta { uid: None, guid: None, gmuid: None, rid: "x".to_string() }, msg: Ok(Message { value: None }) };
    let legacy_resp = applink::codec::remote_control::response::Response {
        meta: applink::codec::remote_control::response::Meta { uid: None, guid: None, gmuid: None, rid: "0-9".to_string() },
        msg: Err("e".to_string()),
    };
    assert!(remote_control_answer(Unsolicited::RemoteControl(legacy_resp)).is_some());
    assert!(remote_control_answer(Unsolicited::Connect).is_none());
    assert!(client::remote_control_answer(client::Unsolicited::RemoteControl(resp.clone()), "x").is_some());
    assert!(client::remote_control_answer(client::Unsolicited::RemoteControl(resp), "y").is_none());
}

#[test]
fn legacy_request_ids() {
    let mut ids = RequestIds::new();
    assert_eq!(ids.next(), "0-1");
    assert_eq!(ids.next(), "0-2");
    assert_eq!(ids.request_sn, 2);
}

#[test]
fn client_request_ids_and_clones() {
    let mut ids = client::RequestIds::new(77);
    assert_eq!(ids.next(), "77-0-1");
    assert_eq!(ids.next(), "77-0-2");
    let mut c = ids.for_clone();
    assert_eq!(c.next(), "77-1-1");
    assert_ne!(c.next(), ids.next());
}

#[test]
fn backend_keeps_what_could_not_be_handed_on() {
    let mut b: Backend<Unsolicited> = Backend::new("acme".to_string());
    assert!(b.take_pending_request().is_none());
    assert_eq!(b.published("t".to_string(), vec![1], true), MaintainResult::Continue);
    assert!(b.pending_request.is_none());
    assert_eq!(b.published("t".to_string(), vec![2], false), MaintainResult::Pending);
    assert_eq!(b.take_pending_request(), Some(("t".to_string(), vec![2])));
    assert!(b.pending_request.is_none());
    assert_eq!(b.hold_unsolicited(Unsolicited::Connect), MaintainResult::Pending);
    assert!(matches!(b.pending_unsolicited, Some(Unsolicited::Connect)));
}

#[test]
fn client_routing() {
    let r = client::route("acme", publish("/applink/acme/report/x", b"{\"a\":1}"));
    assert!(matches!(r, client::Incoming::ParseReport(t) if t == "{\"a\":1}"));
    let r = client::route("acme", publish("/applink/acme/remotectrl/response/1", b"r"));
    assert!(matches!(r, client::Incoming::ParseRemoteControl(t) if t == "r"));
    let r = client::route("acme", publish("/applink/acme/macro/response/1", b"m"));
    assert!(matches!(r, client::Incoming::ParseMacro(t) if t == "m"));
    assert!(matches!(client::route("acme", publish("/applink/acme/macro/request/1", b"q")), client::Incoming::Skip));
    assert!(matches!(client::route("acme", publish("/applink/acme/remotectrl/request/1", b"q")), client::Incoming::Skip));
    assert!(matches!(client::route("acme", publish("/x", b"q")), client::Incoming::UnknownTopic(t) if t == "/x"));
    let r = client::route("acme", publish("/applink/acme/report", &[0xFF, 0xFE]));
    assert!(matches!(
        r,
        client::Incoming::Deliver(client::Unsolicited::BadFormat(client::BadFormat::Utf8 { topic, data }))
            if topic == "/applink/acme/report" && data == vec![0xFF, 0xFE]
    ));
    assert!(matches!(client::route("acme", MqttEvent::ConnAck), client::Incoming::Deliver(client::Unsolicited::Connect)));
}

#[test]
fn client_parse_outcomes() {
    let u = client::report_unsolicited(Err(ReportParseError::Json("x".to_string())));
    assert!(matches!(u, client::Unsolicited::BadFormat(client::BadFormat::Report(ReportParseError::Json(m))) if m == "x"));
}

#[test]
fn listeners_that_took_the_message_are_kept_in_order() {
    let kept = client::keep_delivered(vec!["a", "b", "c", "d"], &vec![true, false, true, false]);
    assert_eq!(kept, vec!["a", "c"]);
    assert!(client::keep_delivered(Vec::<u8>::new(), &vec![]).is_empty());
}

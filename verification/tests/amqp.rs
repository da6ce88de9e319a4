use applink::client::amqp::{
    join_dots, parse_applink_report, parse_gateway_unsolicited, parse_unsolicited, run_step,
    split_dots, AmqpUnsolicted, ApplinkBadFormat, ApplinkReportBadFormat,
    BadFormat, GatewayBadFormat, GatewayPayload, Parsed, RunAction, RunEvent, RunState,
    Unsolicited,
};
use applink::codec::report::ReportParseError;

fn parts(s: &[&str]) -> Vec<String> {
    s.iter().map(|x| x.to_string()).collect()
}

#[test]
fn split_and_join() {
    assert_eq!(split_dots(".applink.acme.report"), parts(&["", "applink", "acme", "report"]));
    assert_eq!(split_dots(""), parts(&[""]));
    assert_eq!(split_dots("a..b."), parts(&["a", "", "b", ""]));
    for key in [".applink.acme.report.1.2", "", "a..b.", "plain"] {
        assert_eq!(join_dots(&split_dots(key), 0), key);
    }
    assert_eq!(join_dots(&parts(&["a", "b", "c"]), 1), "b.c");
    assert_eq!(join_dots(&parts(&["a"]), 1), "");
}

#[test]
fn gateway_keys() {
    let p = parts(&["", "gw", "G1", "md", "M1"]);
    match parse_gateway_unsolicited(&p, 2, b"xy") {
        Ok(Unsolicited::Gateway { uid, payload: GatewayPayload::MdReport { modem, payload } }) => {
            assert_eq!(uid, "G1");
            assert_eq!(modem, "M1");
            assert_eq!(payload, b"xy".to_vec());
        }
        other => panic!("unexpected {:?}", other),
    }
    let p = parts(&["G1", "md"]);
    assert!(matches!(
        parse_gateway_unsolicited(&p, 0, b""),
        Err(GatewayBadFormat::MissingModemUid { routing_key, .. }) if routing_key == "G1.md"
    ));
    assert!(matches!(
        parse_gateway_unsolicited(&parts(&[]), 0, b""),
        Err(GatewayBadFormat::MissingUid { routing_key, .. }) if routing_key.is_empty()
    ));
    assert!(matches!(
        parse_gateway_unsolicited(&parts(&["G1", "pmd", "x"]), 0, b"d"),
        Err(GatewayBadFormat::UnknownSubtopic { routing_key, sub_topic, data })
            if routing_key == "G1.pmd.x" && sub_topic == "pmd" && data == b"d".to_vec()
    ));
    assert!(matches!(
        parse_gateway_unsolicited(&parts(&["G1"]), 0, b""),
        Err(GatewayBadFormat::UnknownSubtopic { sub_topic, .. }) if sub_topic.is_empty()
    ));
}

#[test]
fn report_keys() {
    let p = parts(&["s1", "d1"]);
    let pending = parse_applink_report("acme", &p, 0, b"{}").unwrap();
    assert_eq!(pending.company, "acme");
    assert_eq!(pending.site, "s1");
    assert_eq!(pending.device, "d1");
    assert_eq!(pending.text, "{}");
    assert!(matches!(
        parse_applink_report("acme", &parts(&["s1"]), 0, b""),
        Err(ApplinkReportBadFormat::MissingDevice { company, routing_key, .. }) if company == "acme" && routing_key == "s1"
    ));
    assert!(matches!(
        parse_applink_report("acme", &parts(&[]), 0, b""),
        Err(ApplinkReportBadFormat::MissingSite { .. })
    ));
    assert!(matches!(
        parse_applink_report("acme", &p, 0, &[0xC3]),
        Err(ApplinkReportBadFormat::BadUtf8 { site, device, data, .. }) if site == "s1" && device == "d1" && data == vec![0xC3]
    ));
}

#[test]
fn whole_routing_keys() {
    match parse_unsolicited(".applink.acme.report.s1.d1", b"{}") {
        Parsed::NeedsReport(p) => {
            assert_eq!(p.company, "acme");
            assert_eq!(p.site, "s1");
            assert_eq!(p.device, "d1");
            match p.complete(Err(ReportParseError::Json("x".to_string()))) {
                Unsolicited::BadFormat(BadFormat::Applink(ApplinkBadFormat::Report(
                    ApplinkReportBadFormat::BadReport { company, data, .. },
                ))) => {
                    assert_eq!(company, "acme");
                    assert_eq!(data, b"{}".to_vec());
                }
                other => panic!("unexpected {:?}", other),
            }
        }
        other => panic!("unexpected {:?}", other),
    }
    assert!(matches!(
        parse_unsolicited(".applink.acme.location.x", b""),
        Parsed::Done(Unsolicited::BadFormat(BadFormat::Applink(ApplinkBadFormat::UnknownSubtopic { sub_topic, routing_key, .. })))
            if sub_topic == "location" && routing_key == "acme.location.x"
    ));
    assert!(matches!(
        parse_unsolicited(".applink", b""),
        Parsed::Done(Unsolicited::BadFormat(BadFormat::Applink(ApplinkBadFormat::MissingCompany { .. })))
    ));
    assert!(matches!(
        parse_unsolicited(".gw.G.md.M", b"p"),
        Parsed::Done(Unsolicited::Gateway { uid, .. }) if uid == "G"
    ));
    assert!(matches!(
        parse_unsolicited("applink.acme", b"z"),
        Parsed::Done(Unsolicited::BadFormat(BadFormat::UnknownRoutingKey { routing_key, data })) if routing_key == "applink.acme" && data == b"z".to_vec()
    ));
    assert!(matches!(
        parse_unsolicited(".other", b""),
        Parsed::Done(Unsolicited::BadFormat(BadFormat::UnknownRoutingKey { .. }))
    ));
}

#[test]
fn main_loop_steps() {
    let (s, a) = run_step(
        RunState::Receiving,
        RunEvent::Delivered(AmqpUnsolicted { routing_key: ".gw.G.md.M".to_string(), data: vec![1] }),
    );
    assert_eq!(s, RunState::Forwarding);
    assert!(matches!(a, RunAction::Deliver(Parsed::Done(Unsolicited::Gateway { .. }))));
    let (s, a) = run_step(RunState::Forwarding, RunEvent::Sent(true));
    assert_eq!(s, RunState::Receiving);
    assert!(matches!(a, RunAction::Receive));
    let (s, a) = run_step(RunState::Receiving, RunEvent::StreamEnded);
    assert_eq!(s, RunState::Disconnecting);
    assert!(matches!(a, RunAction::Notify(Unsolicited::Disconnect)));
    let (s, a) = run_step(RunState::Disconnecting, RunEvent::Sent(true));
    assert_eq!(s, RunState::Reconnecting);
    assert!(matches!(a, RunAction::Reconnect));
    let (s, a) = run_step(RunState::Reconnecting, RunEvent::Connected(false));
    assert_eq!(s, RunState::Reconnecting);
    assert!(matches!(a, RunAction::RetryLater));
    let (s, a) = run_step(RunState::Reconnecting, RunEvent::Connected(true));
    assert_eq!(s, RunState::Announcing);
    assert!(matches!(a, RunAction::Notify(Unsolicited::Connect)));
    let (s, a) = run_step(RunState::Announcing, RunEvent::Sent(false));
    assert_eq!(s, RunState::Stopped);
    assert!(matches!(a, RunAction::Stop));
}

#[test]
fn pending_report_keeps_its_text() {
    let p = parse_applink_report("c", &parts(&["s", "d"]), 0, "é".as_bytes()).unwrap();
    assert_eq!(p.text, "é");
    assert_eq!(p.data, "é".as_bytes().to_vec());
}

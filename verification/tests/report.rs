use applink::codec::report::raw;
use applink::codec::report::{
    field_names_distinct, fields_within_range, parse_parsed, swap_bytes, AcceptationStatus, DataValue, Lqual, Meta,
    MetaParseError, RawReport, RawReportMsg, RawReportMsgParseError, Report, ReportMsg,
    ReportParseError, SecurityStatus,
};
use applink::common::Uid;

fn raw_meta() -> raw::Meta {
    raw::Meta {
        uid: "001BC50C70010EDE".to_string(),
        guid: "VGW-1".to_string(),
        gmuid: "gm".to_string(),
        lb: 40,
        fid: 201,
        fname: "uguard_tag_log".to_string(),
        device_type: "0110000000000000".to_string(),
        site_id: 7,
        lqual: 3,
        offset: 0,
        roaming: false,
        ct: "now".to_string(),
        freq: 868.1f64.to_bits(),
        status: 0,
        s_status: 2,
        a_status: 0,
        timestamp: 1686146794,
    }
}

#[test]
fn status_codes() {
    assert_eq!(SecurityStatus::try_from(1), Ok(SecurityStatus::BelowExpectations));
    assert_eq!(SecurityStatus::try_from(4), Ok(SecurityStatus::TodoAskBen));
    assert_eq!(SecurityStatus::try_from(0), Err(()));
    assert_eq!(AcceptationStatus::try_from(6), Ok(AcceptationStatus::RejectedIllegal));
    assert_eq!(AcceptationStatus::try_from(7), Err(()));
    assert_eq!(Lqual::try_from(5), Ok(Lqual::L5));
    assert_eq!(Lqual::try_from(6), Err(()));
    assert_eq!(SecurityStatus::MatchingExpectations.code(), 2);
}

#[test]
fn swap_bytes_reverses_and_is_involutive() {
    assert_eq!(swap_bytes(0x0102030405060708), 0x0807060504030201);
    assert_eq!(swap_bytes(swap_bytes(0x1122334455667788)), 0x1122334455667788);
}

#[test]
fn meta_is_read() {
    let m = Meta::try_from(raw_meta()).unwrap();
    assert!(m.uid.eq(&Uid::Dash7(0x001BC50C70010EDE)));
    assert!(m.guid.eq(&Uid::Vgw("1".to_string())));
    assert!(m.gmuid.eq(&Uid::Unknown("gm".to_string())));
    assert_eq!(m.device_type, 0x0000000000001001);
    assert_eq!(m.lqual, Lqual::L3);
    assert_eq!(m.s_status, SecurityStatus::MatchingExpectations);
    assert_eq!(m.a_status, AcceptationStatus::Accepted);
    assert_eq!(m.freq, 868.1f64.to_bits());
    assert_eq!(m.timestamp, 1686146794);
}

#[test]
fn meta_errors_in_order() {
    let mut bad = raw_meta();
    bad.device_type = "xyz".to_string();
    bad.lqual = 9;
    assert!(matches!(Meta::try_from(bad), Err(MetaParseError::BadDeviceType(_))));
    let mut bad = raw_meta();
    bad.lqual = 9;
    bad.s_status = 0;
    assert!(matches!(Meta::try_from(bad), Err(MetaParseError::BadLqual(9))));
    let mut bad = raw_meta();
    bad.s_status = 0;
    bad.a_status = 9;
    assert!(matches!(Meta::try_from(bad), Err(MetaParseError::BadSecurityStatus(0))));
    let mut bad = raw_meta();
    bad.a_status = 9;
    assert!(matches!(Meta::try_from(bad), Err(MetaParseError::BadAcceptationStatus(9))));
}

#[test]
fn data_values() {
    assert!(matches!(DataValue::try_from(raw::DataValue::PositiveInteger(5)), Ok(DataValue::PositiveInteger(5))));
    assert!(matches!(
        DataValue::try_from(raw::DataValue::NegativeInteger(-5)),
        Ok(DataValue::NegativeInteger(5))
    ));
    match DataValue::try_from(raw::DataValue::Raw { hex: "0aFF".to_string() }) {
        Ok(DataValue::Raw(b)) => assert_eq!(b, vec![0x0A, 0xFF]),
        other => panic!("unexpected {:?}", other),
    }
    assert!(DataValue::try_from(raw::DataValue::Raw { hex: "0".to_string() }).is_err());
}

#[test]
fn raw_report_messages() {
    let p = RawReportMsg::try_from(raw::RawReportMsg { offset: 4, payload: "0102".to_string() }).unwrap();
    assert_eq!(p.offset, 4);
    assert_eq!(p.payload, vec![1, 2]);
    match RawReportMsg::try_from(raw::RawReportMsg { offset: 0, payload: "zz".to_string() }) {
        Err(RawReportMsgParseError::NonHexPayload(s)) => assert_eq!(s, "zz"),
        other => panic!("unexpected {:?}", other),
    }
}

#[test]
fn known_report_is_read() {
    let known = raw::Report::Known(raw::KnownReport {
        meta: raw_meta(),
        msg: vec![
            ("a".to_string(), raw::DataValue::PositiveInteger(1)),
            ("b".to_string(), raw::DataValue::Raw { hex: "10".to_string() }),
        ],
    });
    assert!(fields_within_range(&known));
    let r = Report::try_from(known).unwrap();
    match r.msg {
        ReportMsg::Known(fields) => {
            assert_eq!(fields.len(), 2);
            assert_eq!(fields[0].0, "a");
            assert_eq!(fields[1].0, "b");
            assert!(matches!(&fields[1].1, DataValue::Raw(b) if b == &vec![0x10]));
        }
        other => panic!("unexpected {:?}", other),
    }
}

#[test]
fn report_errors() {
    let bad_field = raw::Report::Known(raw::KnownReport {
        meta: raw_meta(),
        msg: vec![("a".to_string(), raw::DataValue::Raw { hex: "1".to_string() })],
    });
    assert!(matches!(Report::try_from(bad_field), Err(ReportParseError::Msg(_))));
    let mut m = raw_meta();
    m.lqual = 200;
    let bad_meta = raw::Report::Raw(raw::RawReport {
        meta: m,
        rmsg: raw::RawReportMsg { offset: 0, payload: "00".to_string() },
    });
    assert!(matches!(Report::try_from(bad_meta), Err(ReportParseError::Meta(MetaParseError::BadLqual(200)))));
    let bad_payload = raw::Report::Raw(raw::RawReport {
        meta: raw_meta(),
        rmsg: raw::RawReportMsg { offset: 0, payload: "0g".to_string() },
    });
    assert!(matches!(Report::try_from(bad_payload), Err(ReportParseError::RawMsg(_))));
}

#[test]
fn overflowing_field_is_detected() {
    let r = raw::Report::Known(raw::KnownReport {
        meta: raw_meta(),
        msg: vec![("n".to_string(), raw::DataValue::NegativeInteger(i64::MIN))],
    });
    assert!(!fields_within_range(&r));
}

#[test]
fn report_parse_parsed_outcomes() {
    match parse_parsed(Err("expected value".to_string())) {
        Err(ReportParseError::Json(m)) => assert_eq!(m, "expected value"),
        other => panic!("unexpected {:?}", other),
    }
    let raw_report = raw::Report::Raw(raw::RawReport {
        meta: raw_meta(),
        rmsg: raw::RawReportMsg { offset: 2, payload: "ABCD".to_string() },
    });
    match parse_parsed(Ok(raw_report)) {
        Ok(Report { msg: ReportMsg::Raw(p), .. }) => assert_eq!(p.payload, vec![0xAB, 0xCD]),
        other => panic!("unexpected {:?}", other),
    }
}

#[test]
fn raw_report_is_read() {
    let rr = RawReport::try_from(raw::RawReport {
        meta: raw_meta(),
        rmsg: raw::RawReportMsg { offset: 1, payload: "FF".to_string() },
    })
    .unwrap();
    assert_eq!(rr.rmsg.payload, vec![0xFF]);
}

#[test]
fn field_names_are_checked() {
    let ok = raw::Report::Known(raw::KnownReport {
        meta: raw_meta(),
        msg: vec![
            ("a".to_string(), raw::DataValue::BitFields(vec![("x".to_string(), 1), ("y".to_string(), 0)])),
            ("b".to_string(), raw::DataValue::PositiveInteger(2)),
        ],
    });
    assert!(field_names_distinct(&ok));
    let twice = raw::Report::Known(raw::KnownReport {
        meta: raw_meta(),
        msg: vec![
            ("a".to_string(), raw::DataValue::PositiveInteger(1)),
            ("a".to_string(), raw::DataValue::PositiveInteger(2)),
        ],
    });
    assert!(!field_names_distinct(&twice));
    let bits_twice = raw::Report::Known(raw::KnownReport {
        meta: raw_meta(),
        msg: vec![("a".to_string(), raw::DataValue::BitFields(vec![("x".to_string(), 1), ("x".to_string(), 0)]))],
    });
    assert!(!field_names_distinct(&bits_twice));
    let raw_report = raw::Report::Raw(raw::RawReport {
        meta: raw_meta(),
        rmsg: raw::RawReportMsg { offset: 0, payload: "00".to_string() },
    });
    assert!(field_names_distinct(&raw_report));
}

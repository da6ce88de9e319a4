use applink::client::codec::uid::Uid as ClientUid;
use applink::common::{Uid, UidDash7DecodeError};

#[test]
fn legacy_parse_dash7_reads_big_endian() {
    assert_eq!(Uid::parse_dash7("001BC50C70010EDE"), Ok(0x001BC50C70010EDE));
    assert_eq!(Uid::parse_dash7("001bc50c70010ede"), Ok(0x001BC50C70010EDE));
}

#[test]
fn legacy_parse_dash7_errors() {
    assert_eq!(Uid::parse_dash7("001BC50C70010ED"), Err(UidDash7DecodeError::BadHex));
    assert_eq!(Uid::parse_dash7("ZZ1BC50C70010EDE"), Err(UidDash7DecodeError::BadHex));
    assert_eq!(Uid::parse_dash7("001BC50C70010EDE00"), Err(UidDash7DecodeError::BadSize));
    assert_eq!(Uid::parse_dash7(""), Err(UidDash7DecodeError::BadSize));
}

#[test]
fn legacy_from_string_kinds() {
    match Uid::from("001BC50C70010EDE".to_string()) {
        Uid::Dash7(u) => assert_eq!(u, 0x001BC50C70010EDE),
        _ => panic!("expected a DASH7 identifier"),
    }
    match Uid::from("VGW-abc".to_string()) {
        Uid::Vgw(s) => assert_eq!(s, "abc"),
        _ => panic!("expected a virtual gateway"),
    }
    match Uid::from("device-1".to_string()) {
        Uid::Unknown(s) => assert_eq!(s, "device-1"),
        _ => panic!("expected an unknown identifier"),
    }
}

#[test]
fn legacy_display_and_debug() {
    let d = Uid::Dash7(0x1BC50C70010EDE);
    assert_eq!(d.to_string(), "001BC50C70010EDE");
    assert_eq!(d.to_debug_string(), "Dash7(001BC50C70010EDE)");
    let v = Uid::Vgw("x1".to_string());
    assert_eq!(v.to_string(), "VGW-x1");
    assert_eq!(v.to_debug_string(), "Vgw(x1)");
    let u = Uid::Unknown("dev".to_string());
    assert_eq!(u.to_string(), "dev");
    assert_eq!(u.to_debug_string(), "Unknown(dev)");
}

#[test]
fn legacy_text_roundtrip() {
    for text in ["001BC50C70010EDE", "VGW-gw7", "plain"] {
        let uid = Uid::from(text.to_string());
        assert_eq!(uid.to_string(), text);
        assert!(Uid::from(uid.to_string()).eq(&uid));
    }
}

#[test]
fn legacy_eq() {
    assert!(Uid::Dash7(5).eq(&Uid::Dash7(5)));
    assert!(!Uid::Dash7(5).eq(&Uid::Dash7(6)));
    assert!(!Uid::Vgw("a".to_string()).eq(&Uid::Unknown("a".to_string())));
}

#[test]
fn client_parse_dash7_bytes() {
    assert_eq!(
        ClientUid::parse_dash7("001BC50C70010EDE"),
        Ok([0x00, 0x1B, 0xC5, 0x0C, 0x70, 0x01, 0x0E, 0xDE])
    );
    assert_eq!(ClientUid::parse_dash7("abc"), Err(applink::client::codec::uid::UidDash7DecodeError::BadHex));
    assert_eq!(ClientUid::parse_dash7("0011"), Err(applink::client::codec::uid::UidDash7DecodeError::BadSize));
}

#[test]
fn client_text_roundtrip_and_forms() {
    let uid = ClientUid::from("001bc50c70010ede".to_string());
    assert_eq!(uid.to_string(), "001BC50C70010EDE");
    assert_eq!(uid.to_debug_string(), "Dash7(001BC50C70010EDE)");
    assert!(ClientUid::from(uid.to_string()).eq(&uid));
    let v = ClientUid::from("VGW-7".to_string());
    assert_eq!(v.to_string(), "VGW-7");
    assert_eq!(v.to_debug_string(), "Vgw(7)");
    let u = ClientUid::from("other".to_string());
    assert_eq!(u.to_debug_string(), "Unknown(other)");
}

#[test]
fn client_dash7_conversions() {
    let b = [1, 2, 3, 4, 5, 6, 7, 8];
    let uid = ClientUid::from_dash7(b);
    assert_eq!(uid.to_string(), "0102030405060708");
    assert_eq!(uid.into_dash7(), Ok(b));
    assert_eq!(ClientUid::from("VGW-1".to_string()).into_dash7(), Err(()));
    assert!(!ClientUid::from_dash7(b).eq(&ClientUid::from_dash7([1, 2, 3, 4, 5, 6, 7, 9])));
}

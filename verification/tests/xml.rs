use applink::json::{JsonNumber, JsonValue};
use applink::xml::apps::common::{WmSys, WmSysOpMode};
use applink::xml::apps::uguard::common::{AppMode, AppStatus};
use applink::xml::apps::uguard::tag::{
    ActionEnum, LogEntryBattery, LogEntryBoot, LogEntryDistance, LogEntryOff, LogEntryState,
    TagLog, TagLogAction, TagState,
};
use applink::xml::d7b::{CompanyID, DeviceType, DeviceTypeError, OneSituDevice, WizziLabDevice};
use applink::xml::modem::v6_3::{HostRevision, ModemRevision, WmDebug};
use applink::xml::{de_boolean, de_character, de_string_u64, XMLError};

fn object(key: &str, value: JsonValue) -> JsonValue {
    JsonValue::Object(vec![(key.to_string(), value)])
}

fn hex_object(hex: &str) -> JsonValue {
    object("hex", JsonValue::String(hex.to_string()))
}

fn err_parts(e: XMLError) -> (String, u32) {
    match e {
        XMLError::ParseError(p) => p,
    }
}

#[test]
fn de_boolean_reads_booleans_and_numbers() {
    assert_eq!(de_boolean(&JsonValue::Bool(true)), Ok(true));
    assert_eq!(de_boolean(&JsonValue::Number(JsonNumber::PosInt(0))), Ok(false));
    assert_eq!(de_boolean(&JsonValue::Number(JsonNumber::NegInt(-3))), Ok(true));
    assert_eq!(
        de_boolean(&JsonValue::Number(JsonNumber::PosInt(u64::MAX))),
        Err("Invalid number".to_string())
    );
    assert_eq!(
        de_boolean(&JsonValue::Number(JsonNumber::Float(1.5f64.to_bits()))),
        Err("Invalid number".to_string())
    );
    assert_eq!(
        de_boolean(&JsonValue::String("true".to_string())),
        Err("Wrong type, expected boolean".to_string())
    );
}

#[test]
fn de_character_reads_codes_and_hex() {
    assert_eq!(de_character(&JsonValue::Number(JsonNumber::PosInt(65))), Ok('A'));
    assert_eq!(de_character(&hex_object("4142")), Ok('A'));
    assert_eq!(
        de_character(&JsonValue::Number(JsonNumber::PosInt(0xD800))),
        Err("Invalid character".to_string())
    );
    assert_eq!(
        de_character(&JsonValue::Number(JsonNumber::NegInt(-1))),
        Err("Invalid number".to_string())
    );
    assert_eq!(de_character(&object("x", JsonValue::Null)), Err("No hex key".to_string()));
    assert_eq!(
        de_character(&object("hex", JsonValue::Bool(true))),
        Err("Failed converting to slice".to_string())
    );
    assert_eq!(de_character(&hex_object("4G")), Err("Failed to decode hex".to_string()));
    assert_eq!(de_character(&hex_object("")), Err("Empty".to_string()));
    assert_eq!(de_character(&JsonValue::Null), Err("Wrong type, expected char".to_string()));
}

#[test]
fn de_string_u64_reads_big_endian_hex() {
    let v = object("utf8", JsonValue::String("0102030405060708".to_string()));
    assert_eq!(de_string_u64(&v), Ok(0x0102030405060708));
    let short = object("utf8", JsonValue::String("0102".to_string()));
    assert_eq!(de_string_u64(&short), Err("Failed to decode hex".to_string()));
    assert_eq!(de_string_u64(&object("hex", JsonValue::Null)), Err("No utf8 key".to_string()));
    assert_eq!(
        de_string_u64(&object("utf8", JsonValue::Number(JsonNumber::PosInt(1)))),
        Err("Failed converting to slice".to_string())
    );
    assert_eq!(de_string_u64(&JsonValue::Bool(false)), Err("Wrong type, expected string".to_string()));
}

#[test]
fn xml_error_text() {
    let e = XMLError::ParseError(("bad hex".to_string(), 42));
    assert_eq!(e.to_string(), "bad hex:42");
}

#[test]
fn device_type_decoding() {
    match DeviceType::try_from(0x01BC50C7_00001001) {
        Ok(DeviceType::WizziLab(WizziLabDevice::D7AMote)) => {}
        other => panic!("unexpected {:?}", other),
    }
    assert!(matches!(DeviceType::try_from(0), Ok(DeviceType::Void)));
    assert_eq!(
        DeviceType::try_from(0x12345678_00000000).err(),
        Some("TryFromPrimitiveError { number: 305419896 }".to_string())
    );
    assert_eq!(
        DeviceType::try_from(0x01BC50C7_0BADBEEF).err(),
        Some("TryFromPrimitiveError { number: 195935983 }".to_string())
    );
    assert_eq!(
        DeviceType::try_from(0x7EABEEDE_00000000).err(),
        Some("Not implemented yet.".to_string())
    );
}

#[test]
fn device_type_decode_errors() {
    assert_eq!(
        DeviceType::decode(0x12345678_00000000).err(),
        Some(DeviceTypeError::UnknownCompany(0x12345678))
    );
    assert_eq!(
        DeviceType::decode(0x01BC50C7_0BADBEEF).err(),
        Some(DeviceTypeError::UnknownDevice(0x0BADBEEF))
    );
    assert_eq!(DeviceType::decode(0x7EABEEDE_00000000).err(), Some(DeviceTypeError::NotImplemented));
    assert_eq!(DeviceTypeError::UnknownDevice(7).to_string(), "TryFromPrimitiveError { number: 7 }");
}

#[test]
fn device_type_apps() {
    let mote = DeviceType::WizziLab(WizziLabDevice::D7AMote);
    assert_eq!(mote.app(), Some("wm".to_string()));
    assert_eq!(
        DeviceType::WizziLab(WizziLabDevice::WoltMeter).app(),
        Some("wolt_uwb_tag".to_string())
    );
    assert_eq!(DeviceType::OneSitu(OneSituDevice::OS300).app(), Some("os300".to_string()));
    assert_eq!(DeviceType::WizziLab(WizziLabDevice::GatewayModem).app(), None);
    assert_eq!(DeviceType::Void.app(), None);
}

#[test]
fn enum_codes_roundtrip() {
    assert_eq!(CompanyID::WizziLab.code(), 0x01BC50C7);
    assert!(matches!(CompanyID::from_code(0x5A751604), Some(CompanyID::WiFindIt)));
    assert!(CompanyID::from_code(1).is_none());
    assert_eq!(WizziLabDevice::D7AMote.code(), 0x1001);
    assert!(matches!(WizziLabDevice::from_code(0x1001), Some(WizziLabDevice::D7AMote)));
    assert_eq!(ActionEnum::StateStop.code(), 11);
    assert_eq!(ActionEnum::from_code(12), None);
    assert_eq!(TagState::from_code(2), Some(TagState::Stopped));
    assert!(matches!(WmSysOpMode::from_code(0), Some(_)));
    assert!(matches!(AppMode::from_code(200), None));
}

#[test]
fn file_identifiers() {
    assert_eq!(TagLog::fid(), 201);
    assert_eq!(TagLog::name(), "uguard_tag_log");
    assert_eq!(WmSys::fid(), 255);
    assert_eq!(WmSys::name(), "sys_status");
    assert_eq!(AppStatus::fid(), 172);
    assert_eq!(ModemRevision::fid(), 2);
    assert_eq!(HostRevision::fid(), 65);
    assert_eq!(WmDebug::fid(), 72);
}

fn entry(bytes: &[u8]) -> [u8; 20] {
    let mut b = [0u8; 20];
    b[..bytes.len()].copy_from_slice(bytes);
    b
}

#[test]
fn battery_entry_bytes() {
    // ts 1686146794 (0x64808EEA), battery plugged, 4067 mV
    let b = entry(&[0xEA, 0x8E, 0x80, 0x64, 7, 0xE3, 0x0F]);
    let e = LogEntryBattery::try_from(b).unwrap();
    assert_eq!(e.ts, 1686146794);
    assert_eq!(e.vbat, 4067);
    let wrong = entry(&[0, 0, 0, 0, 4]);
    assert_eq!(
        err_parts(LogEntryBattery::try_from(wrong).unwrap_err()),
        ("unexpected action".to_string(), 4)
    );
    let unknown = entry(&[0, 0, 0, 0, 99]);
    assert_eq!(
        err_parts(LogEntryBattery::try_from(unknown).unwrap_err()),
        ("unknown action".to_string(), 99)
    );
}

#[test]
fn distance_entry_bytes() {
    let b = entry(&[1, 0, 0, 0, 5, 0x1A, 0x00, 7, 0x1C, 0x00, 10, 0x34, 0x12, 3, 0, 0, 0, 0xFF, 0xFF, 9]);
    let e = LogEntryDistance::try_from(b).unwrap();
    assert_eq!(e.ts, 1);
    assert_eq!(e.controller_vid, 0x1A);
    assert_eq!(e.distance, 7);
    assert_eq!(e.tag[0].vid, 0x1C);
    assert_eq!(e.tag[0].distance, 10);
    assert_eq!(e.tag[1].vid, 0x1234);
    assert_eq!(e.tag[1].distance, 3);
    assert_eq!(e.tag[3].vid, 0xFFFF);
    assert_eq!(e.tag[3].distance, 9);
    assert!(LogEntryDistance::try_from(entry(&[0, 0, 0, 0, 6])).is_err());
}

#[test]
fn off_boot_and_state_entries() {
    let off = LogEntryOff::try_from(entry(&[0x10, 0x27, 0, 0, 6])).unwrap();
    assert_eq!(off.ts, 10000);
    let boot = LogEntryBoot::try_from(entry(&[2, 0, 0, 0, 0, b'W', 3, 0, 1, 0, 0, 0, 0xFF, 0, 0, 0])).unwrap();
    assert_eq!(boot.ts, 2);
    assert_eq!(boot.reset_cause, 'W');
    assert_eq!(boot.assert_count, 3);
    assert_eq!(boot.last_assert, 1);
    assert_eq!(boot.last_assert_arg, 255);
    let st = LogEntryState::try_from(entry(&[0, 1, 0, 0, 10, 0, 1, 0, 0, 1, 1, 1, 0, 0])).unwrap();
    assert_eq!(st.ts, 256);
    assert_eq!(st.state, TagState::Good);
    assert!(st.active && !st.cup && !st.facedown && st.stable && st.configured && st.running);
    assert!(!st.plugged && !st.battery_critical);
    assert_eq!(
        err_parts(LogEntryState::try_from(entry(&[0, 0, 0, 0, 11, 7])).unwrap_err()),
        ("unknown tag state".to_string(), 7)
    );
}

#[test]
fn tag_log_action_from_json() {
    let a = TagLogAction::try_from(hex_object("EA8E806407E30F00000000000000000000000000")).unwrap();
    match a {
        TagLogAction::BatteryPlugged(e) => {
            assert_eq!(e.ts, 1686146794);
            assert_eq!(e.vbat, 4067);
        }
        other => panic!("unexpected {:?}", other),
    }
    let s = TagLogAction::try_from(hex_object("000100000B0001000001010001000000000000FF")).unwrap();
    assert!(matches!(s, TagLogAction::StateStop(_)));
}

#[test]
fn tag_log_action_errors() {
    assert_eq!(
        err_parts(TagLogAction::try_from(JsonValue::Null).unwrap_err()),
        ("not an object".to_string(), 0)
    );
    assert_eq!(
        err_parts(TagLogAction::try_from(object("x", JsonValue::Null)).unwrap_err()),
        ("no hex key".to_string(), 0)
    );
    assert_eq!(
        err_parts(TagLogAction::try_from(object("hex", JsonValue::Bool(true))).unwrap_err()),
        ("hex is not a string".to_string(), 0)
    );
    assert_eq!(
        err_parts(TagLogAction::try_from(hex_object("00")).unwrap_err()),
        ("bad hex".to_string(), 0)
    );
    assert_eq!(
        err_parts(TagLogAction::try_from(hex_object("00000000630000000000000000000000000000FF")).unwrap_err()),
        ("unknown action".to_string(), 0x63)
    );
}

#[test]
fn tag_log_boot_entry_is_read() {
    let a = TagLogAction::try_from(hex_object("0100000000410000000000000000000000000000")).unwrap();
    match a {
        TagLogAction::Boot(b) => {
            assert_eq!(b.ts, 1);
            assert_eq!(b.reset_cause, 'A');
            assert_eq!(b.assert_count, 0);
            assert_eq!(b.last_assert, 0);
            assert_eq!(b.last_assert_arg, 0);
        }
        other => panic!("unexpected {:?}", other),
    }
}

#[test]
fn tag_log_every_kind_of_entry_is_read() {
    let kinds = [
        ("0000000000", 0u8),
        ("0000000001", 1),
        ("0000000002", 2),
        ("0000000007", 7),
        ("000000000A", 10),
    ];
    for (head, action) in kinds {
        let hex = format!("{}{}", head, "0".repeat(30));
        let a = TagLogAction::try_from(hex_object(&hex)).unwrap();
        let ok = match (action, a) {
            (0, TagLogAction::Boot(_)) => true,
            (1, TagLogAction::DriverOn(_)) => true,
            (2, TagLogAction::DriverOff(_)) => true,
            (7, TagLogAction::BatteryPlugged(_)) => true,
            (10, TagLogAction::StateStart(_)) => true,
            _ => false,
        };
        assert!(ok);
    }
}

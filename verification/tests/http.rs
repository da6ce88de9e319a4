use applink::client::codec::uid::Uid as ClientUid;
use applink::client::http::{
    device_tags_path, devices_info_path, RawDeviceTags, RawDevicesInfos, RawSiteDevices,
};
use applink::common::Uid;
use applink::http::{site_devices_path, Credentials, HttpError};

#[test]
fn credentials() {
    let c = Credentials::new("srv".to_string(), "me".to_string(), "pw".to_string());
    assert_eq!(c.url("api/v1/x"), "https://me:pw@srv/api/v1/x");
    let d = Credentials::dash7board("u".to_string(), "p".to_string());
    assert_eq!(d.server, "dash7board.wizzilab.com");
    assert_eq!(d.username, "u");
    assert_eq!(d.password, "p");
}

#[test]
fn paths() {
    assert_eq!(site_devices_path(1), "api/v1/sites/1/devices");
    assert_eq!(site_devices_path(120), "api/v1/sites/120/devices");
    assert_eq!(devices_info_path(), "api/v1/devices/info");
    assert_eq!(device_tags_path("001BC50C70010EDE"), "api/v1/devices/001BC50C70010EDE/tags/add");
}

#[test]
fn legacy_site_devices() {
    let r = applink::http::RawSiteDevices::Success { uids: Some(vec!["001BC50C70010EDE".to_string()]) }
        .into_uids()
        .unwrap();
    assert_eq!(r.len(), 1);
    assert!(r[0].eq(&Uid::Dash7(0x001BC50C70010EDE)));
    assert!(matches!(
        applink::http::RawSiteDevices::Failure { msg: "denied".to_string() }.into_uids(),
        Err(HttpError::Dash7board(m)) if m == "denied"
    ));
}

#[test]
fn client_site_devices() {
    let r = RawSiteDevices::Success { uids: vec!["001BC50C70010EDE".to_string()] }.into_uids().unwrap();
    assert_eq!(r.len(), 1);
    assert!(r[0].eq(&ClientUid::from("001BC50C70010EDE".to_string())));
}

#[test]
fn device_answers() {
    assert_eq!(RawDeviceTags::Success { tags: vec!["test".to_string()] }.into_tags().unwrap(), vec!["test".to_string()]);
    assert!(matches!(RawDeviceTags::Failure { msg: "no".to_string() }.into_tags(), Err(HttpError::Dash7board(m)) if m == "no"));
    assert!(RawDevicesInfos::Success { devices: vec![] }.into_devices().unwrap().is_empty());
    assert!(matches!(RawDevicesInfos::Failure { msg: "x".to_string() }.into_devices(), Err(HttpError::Dash7board(_))));
}

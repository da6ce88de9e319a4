//! The Dash7board HTTP API as the client uses it: the paths it asks for and
//! how the answers are read.
use vstd::prelude::*;
pub use crate::http::{site_devices_path, site_devices_path_spec, url_spec, Credentials, HttpError};
use crate::client::codec::uid::{uid_from_spec, Uid};
use crate::text::push_str;

verus! {

/// The answer to a site's device list, as written: `status` `ok` with the
/// identifiers, or `error` with a message.
#[derive(Debug, Clone)]
pub enum RawSiteDevices {
    Success { uids: Vec<String> },
    Failure { msg: String },
}

/// What the API knows of a device.
#[derive(Debug, Clone)]
pub struct DeviceInfos {
    pub uid: Uid,
    pub site_id: Option<usize>,
    pub vid: Option<usize>,
    pub key_ring_id: Option<usize>,
    pub key: Option<usize>,
    pub label: Option<String>,
    pub dc: Option<String>,
    pub mc: Option<String>,
    pub dfv: Option<String>,
    pub dhv: Option<String>,
    pub mfv: Option<String>,
    pub mhv: Option<String>,
}

/// The answer to a request for device information, as written.
#[derive(Debug, Clone)]
pub enum RawDevicesInfos {
    Success { devices: Vec<DeviceInfos> },
    Failure { msg: String },
}

/// The answer to a request for a device's tags, as written.
#[derive(Debug, Clone)]
pub enum RawDeviceTags {
    Success { tags: Vec<String> },
    Failure { msg: String },
}

/// `out` holds the identifiers that the texts name, in order.
pub open spec fn uids_of(texts: Seq<String>, out: Seq<Uid>) -> bool {
    out.len() == texts.len() && forall|i: int|
        0 <= i < out.len() ==> #[trigger] out[i]@ == uid_from_spec(texts[i]@)
}

/// Reads identifiers from their texts.
pub fn uids_from(texts: Vec<String>) -> (r: Vec<Uid>)
    ensures
        uids_of(texts@, r@),
{
    let ghost all = texts@;
    let mut rest = texts;
    let mut out: Vec<Uid> = Vec::new();
    let n = rest.len();
    assert(all.skip(0) =~= all);
    while rest.len() > 0
        invariant
            n == all.len(),
            out@.len() + rest@.len() == n,
            rest@ == all.skip(out@.len() as int),
            forall|i: int| 0 <= i < out@.len() ==> #[trigger] out@[i]@ == uid_from_spec(all[i]@),
        decreases rest@.len(),
    {
        let ghost k = out@.len() as int;
        let s = rest.remove(0);
        assert(s == all[k]);
        assert(rest@ =~= all.skip(k + 1));
        out.push(Uid::from(s));
    }
    out
}

impl RawSiteDevices {
    /// The devices of a site from the API's answer: the identifiers of an
    /// `ok` answer, or the message of an `error` answer.
    pub fn into_uids(self) -> (r: Result<Vec<Uid>, HttpError>)
        ensures
            match self {
                RawSiteDevices::Success { uids } => r matches Ok(out) && uids_of(uids@, out@),
                RawSiteDevices::Failure { msg } => r matches Err(HttpError::Dash7board(m)) && m
                    == msg,
            },
    {
        match self {
            RawSiteDevices::Success { uids } => Ok(uids_from(uids)),
            RawSiteDevices::Failure { msg } => Err(HttpError::Dash7board(msg)),
        }
    }
}

impl RawDevicesInfos {
    /// The devices of an `ok` answer, or the message of an `error` answer.
    pub fn into_devices(self) -> (r: Result<Vec<DeviceInfos>, HttpError>)
        ensures
            match self {
                RawDevicesInfos::Success { devices } => r matches Ok(out) && out == devices,
                RawDevicesInfos::Failure { msg } => r matches Err(HttpError::Dash7board(m)) && m
                    == msg,
            },
    {
        match self {
            RawDevicesInfos::Success { devices } => Ok(devices),
            RawDevicesInfos::Failure { msg } => Err(HttpError::Dash7board(msg)),
        }
    }
}

impl RawDeviceTags {
    /// The tags of an `ok` answer, or the message of an `error` answer.
    pub fn into_tags(self) -> (r: Result<Vec<String>, HttpError>)
        ensures
            match self {
                RawDeviceTags::Success { tags } => r matches Ok(out) && out == tags,
                RawDeviceTags::Failure { msg } => r matches Err(HttpError::Dash7board(m)) && m
                    == msg,
            },
    {
        match self {
            RawDeviceTags::Success { tags } => Ok(tags),
            RawDeviceTags::Failure { msg } => Err(HttpError::Dash7board(msg)),
        }
    }
}

/// `api/v1/devices/info`, where device information is asked for.
pub open spec fn devices_info_path_spec() -> Seq<char> {
    "api/v1/devices/info"@
}

/// `api/v1/devices/{uid}/tags/add`, where a device's tags are read (by
/// adding none).
pub open spec fn device_tags_path_spec(uid: Seq<char>) -> Seq<char> {
    "api/v1/devices/"@ + uid + "/tags/add"@
}

/// The path where device information is asked for.
pub fn devices_info_path() -> (r: String)
    ensures
        r@ == devices_info_path_spec(),
{
    "api/v1/devices/info".to_string()
}

/// The path where the tags of the device `uid` are read.
pub fn device_tags_path(uid: &str) -> (r: String)
    ensures
        r@ == device_tags_path_spec(uid@),
{
    let mut s = String::new();
    push_str(&mut s, "api/v1/devices/");
    push_str(&mut s, uid);
    push_str(&mut s, "/tags/add");
    s
}

} // verus!

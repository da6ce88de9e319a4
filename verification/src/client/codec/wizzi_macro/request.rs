//! Requests to run a macro, with variables for each device.
use vstd::prelude::*;
pub use crate::client::codec::uid::Uid;
pub use crate::codec::wizzi_macro::request::GatewayMode;
pub use crate::common::Dash7boardPermission;

verus! {

/// A request to run the macro `name` on devices of a site.
#[derive(Debug)]
pub struct Request {
    pub site_id: usize,
    pub user_type: Dash7boardPermission,
    pub name: String,
    /// Variables shared by all devices; when a name is given twice, the
    /// later value is the one sent.
    pub shared_vars: Vec<(String, usize)>,
    /// Variables of single devices; when a device is given twice, the later
    /// variables are the ones sent.
    pub device_vars: Vec<(Uid, Vec<(String, usize)>)>,
    pub device_uids: Vec<String>,
    pub gateway_mode: GatewayMode,
}

} // verus!

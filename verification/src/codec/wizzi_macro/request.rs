//! Requests to run a macro.
use vstd::prelude::*;
pub use crate::common::Dash7boardPermission;

verus! {

/// How gateways are chosen for a macro.
#[derive(Debug, Clone, Copy, PartialEq, Eq, Structural)]
pub enum GatewayMode {
    Best,
}

/// A request to run the macro `name` on devices of a site.
#[derive(Debug, Clone)]
pub struct Request {
    pub site_id: usize,
    pub user_type: Dash7boardPermission,
    pub name: String,
    /// Variables shared by all devices; when a name is given twice, the
    /// later value is the one sent.
    pub shared_vars: Vec<(String, usize)>,
    pub device_uids: Vec<String>,
    pub gateway_mode: GatewayMode,
}

} // verus!

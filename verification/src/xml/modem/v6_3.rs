//! Files of modem firmware 6.3.
use vstd::prelude::*;

verus! {

/// The modem revision file (file 2).
#[derive(Debug, Clone)]
pub struct ModemRevision {
    pub code: String,
    pub hwv: u32,
    pub fwid: u8,
    pub fwmaj: u8,
    pub fwmin: u8,
    pub fwp: u16,
    pub fwh: u32,
    pub maxsize: u32,
}

impl ModemRevision {
    /// The file number.
    pub fn fid() -> (r: u8)
        ensures
            r == 2,
    {
        2
    }

    /// The file name.
    pub fn name() -> (r: &'static str)
        ensures
            r@ == "modem_version"@,
    {
        "modem_version"
    }
}

/// The host revision file (file 65).
#[derive(Debug, Clone)]
pub struct HostRevision {
    pub code: String,
    pub hwv: u32,
    pub fwid: u8,
    pub fwmaj: u8,
    pub fwmin: u8,
    pub fwp: u16,
    pub fwh: u32,
    pub maxsize: u32,
}

impl HostRevision {
    /// The file number.
    pub fn fid() -> (r: u8)
        ensures
            r == 65,
    {
        65
    }

    /// The file name.
    pub fn name() -> (r: &'static str)
        ensures
            r@ == "host_version"@,
    {
        "host_version"
    }
}

/// The modem debug file (file 72).
#[derive(Debug, Clone, Copy)]
pub struct WmDebug {
    pub last_assert: u32,
    pub last_assert_arg: u32,
    pub assert_count: u16,
    pub host_present: bool,
    pub boot_cause: char,
    pub active_itf: Option<u32>,
    pub active_itf_fields: Option<ActiveItf>,
}

/// Which interfaces of a modem are active.
#[derive(Debug, Clone, Copy)]
pub struct ActiveItf {
    pub hst: bool,
    pub com: bool,
    pub dbg: bool,
    pub d7a: bool,
    pub lwan: bool,
}

impl WmDebug {
    /// The file number.
    pub fn fid() -> (r: u8)
        ensures
            r == 72,
    {
        72
    }

    /// The file name.
    pub fn name() -> (r: &'static str)
        ensures
            r@ == "wm_debug"@,
    {
        "wm_debug"
    }
}

} // verus!

//! Files common to all applications.
use vstd::prelude::*;

verus! {

/// The system status file (file 255) of a module.
#[derive(Debug, Clone, Copy)]
pub struct WmSys {
    pub sys_op_mode: WmSysOpMode,
    pub boot_cause: char,
    pub assert_count: u16,
    pub last_assert: u32,
    pub last_assert_arg: u32,
}

/// The operating mode a module reports.
#[derive(Debug, Clone, Copy, PartialEq, Eq, Structural)]
pub enum WmSysOpMode {
    Good,
    NoApp,
    NoLibex,
    NoFs,
    NoModem,
}

impl WmSysOpMode {
    /// The number that stands for each variant.
    pub open spec fn spec_code(self) -> u8 {
        match self {
            WmSysOpMode::Good => 0u8,
            WmSysOpMode::NoApp => 1u8,
            WmSysOpMode::NoLibex => 2u8,
            WmSysOpMode::NoFs => 3u8,
            WmSysOpMode::NoModem => 4u8,
        }
    }

    /// The variant that a number stands for, if any.
    pub open spec fn spec_from_code(n: u8) -> Option<WmSysOpMode> {
        match n {
            0u8 => Some(WmSysOpMode::Good),
            1u8 => Some(WmSysOpMode::NoApp),
            2u8 => Some(WmSysOpMode::NoLibex),
            3u8 => Some(WmSysOpMode::NoFs),
            4u8 => Some(WmSysOpMode::NoModem),
            _ => None,
        }
    }

    /// The number of the variant (`IntoPrimitive`).
    pub fn code(self) -> (r: u8)
        ensures
            r == self.spec_code(),
    {
        match self {
            WmSysOpMode::Good => 0,
            WmSysOpMode::NoApp => 1,
            WmSysOpMode::NoLibex => 2,
            WmSysOpMode::NoFs => 3,
            WmSysOpMode::NoModem => 4,
        }
    }

    /// The variant of a number (`TryFromPrimitive`); `None` for a number
    /// that stands for no variant.
    pub fn from_code(n: u8) -> (r: Option<WmSysOpMode>)
        ensures
            r == Self::spec_from_code(n),
    {
        match n {
            0 => Some(WmSysOpMode::Good),
            1 => Some(WmSysOpMode::NoApp),
            2 => Some(WmSysOpMode::NoLibex),
            3 => Some(WmSysOpMode::NoFs),
            4 => Some(WmSysOpMode::NoModem),
            _ => None,
        }
    }

    /// Every variant is read back from its own number, and a number that
    /// reads as a variant is that variant's number.
    pub proof fn lemma_code_roundtrip(self, n: u8)
        ensures
            Self::spec_from_code(self.spec_code()) == Some(self),
            Self::spec_from_code(n) matches Some(e) ==> e.spec_code() == n,
    {
    }

    /// Each variant is read from the number registered for it and from no
    /// other: a number that reads as `e` is `e`'s registered number.
    pub proof fn lemma_registered_codes(n: u8, e: WmSysOpMode)
        requires
            WmSysOpMode::spec_from_code(n) == Some(e),
        ensures
            e is Good <==> n == 0u8,
            e is NoApp <==> n == 1u8,
            e is NoLibex <==> n == 2u8,
            e is NoFs <==> n == 3u8,
            e is NoModem <==> n == 4u8,
    {
    }
}

impl WmSys {
    /// The file number.
    pub fn fid() -> (r: u8)
        ensures
            r == 255,
    {
        255
    }

    /// The file name.
    pub fn name() -> (r: &'static str)
        ensures
            r@ == "sys_status"@,
    {
        "sys_status"
    }
}

} // verus!

//! Files common to the uGuard devices.
use vstd::prelude::*;

verus! {

/// The uGuard application status file (file 172).
#[derive(Debug, Clone, Copy)]
pub struct AppStatus {
    pub mode: AppMode,
    pub errors: u8,
    pub errors_fields: AppStatusError,
    pub vbat: u16,
}

/// The mode of a uGuard application.
#[derive(Debug, Clone, Copy, PartialEq, Eq, Structural)]
pub enum AppMode {
    Shelf,
    Maintenance,
    Active,
    Test,
}

impl AppMode {
    /// The number that stands for each variant.
    pub open spec fn spec_code(self) -> u8 {
        match self {
            AppMode::Shelf => 0u8,
            AppMode::Maintenance => 1u8,
            AppMode::Active => 2u8,
            AppMode::Test => 3u8,
        }
    }

    /// The variant that a number stands for, if any.
    pub open spec fn spec_from_code(n: u8) -> Option<AppMode> {
        match n {
            0u8 => Some(AppMode::Shelf),
            1u8 => Some(AppMode::Maintenance),
            2u8 => Some(AppMode::Active),
            3u8 => Some(AppMode::Test),
            _ => None,
        }
    }

    /// The number of the variant (`IntoPrimitive`).
    pub fn code(self) -> (r: u8)
        ensures
            r == self.spec_code(),
    {
        match self {
            AppMode::Shelf => 0,
            AppMode::Maintenance => 1,
            AppMode::Active => 2,
            AppMode::Test => 3,
        }
    }

    /// The variant of a number (`TryFromPrimitive`); `None` for a number
    /// that stands for no variant.
    pub fn from_code(n: u8) -> (r: Option<AppMode>)
        ensures
            r == Self::spec_from_code(n),
    {
        match n {
            0 => Some(AppMode::Shelf),
            1 => Some(AppMode::Maintenance),
            2 => Some(AppMode::Active),
            3 => Some(AppMode::Test),
            _ => None,
        }
    }

    /// Every variant is read back from its own number, and a number that
    /// reads as a variant is that variant's number.
    pub proof fn lemma_code_roundtrip(self, n: u8)
        ensures
            Self::spec_from_code(self.spec_code()) == Some(self),
            Self::spec_from_code(n) matches Some(e) ==> e.spec_code() == n,
    {
    }

    /// Each variant is read from the number registered for it and from no
    /// other: a number that reads as `e` is `e`'s registered number.
    pub proof fn lemma_registered_codes(n: u8, e: AppMode)
        requires
            AppMode::spec_from_code(n) == Some(e),
        ensures
            e is Shelf <==> n == 0u8,
            e is Maintenance <==> n == 1u8,
            e is Active <==> n == 2u8,
            e is Test <==> n == 3u8,
    {
    }
}

/// Which parts of a uGuard device are in error.
#[derive(Debug, Clone, Copy)]
pub struct AppStatusError {
    pub libex: bool,
    pub motion_axl: bool,
    pub motion_mag: bool,
    pub sensor: bool,
    pub ext_i2c: bool,
    pub ext_spi: bool,
}

impl AppStatus {
    /// The file number.
    pub fn fid() -> (r: u8)
        ensures
            r == 172,
    {
        172
    }

    /// The file name.
    pub fn name() -> (r: &'static str)
        ensures
            r@ == "uguard_app_status"@,
    {
        "uguard_app_status"
    }
}

} // verus!

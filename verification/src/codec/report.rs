//! Reports of device files: the metadata of the frame that carried them and
//! either the decoded fields of the file or its raw bytes.
pub mod raw;

use vstd::prelude::*;
use crate::common::{uid_from_spec, Uid};
use crate::hex_text::{hex_decode, hex_decoded, is_hex};
use crate::text::{hex_digits_value, str_eq, parses_as_hex_u64, radix_digits, u64_from_hex_str};

verus! {

/// How the security of a received frame compares to what was expected.
#[derive(Debug, Clone, Copy, PartialEq, Eq, Structural)]
pub enum SecurityStatus {
    BelowExpectations,
    MatchingExpectations,
    AboveExpectations,
    TodoAskBen,
}

impl SecurityStatus {
    /// The number that stands for each variant.
    pub open spec fn spec_code(self) -> u8 {
        match self {
            SecurityStatus::BelowExpectations => 1u8,
            SecurityStatus::MatchingExpectations => 2u8,
            SecurityStatus::AboveExpectations => 3u8,
            SecurityStatus::TodoAskBen => 4u8,
        }
    }

    /// The variant that a number stands for, if any.
    pub open spec fn spec_from_code(n: u8) -> Option<SecurityStatus> {
        match n {
            1u8 => Some(SecurityStatus::BelowExpectations),
            2u8 => Some(SecurityStatus::MatchingExpectations),
            3u8 => Some(SecurityStatus::AboveExpectations),
            4u8 => Some(SecurityStatus::TodoAskBen),
            _ => None,
        }
    }

    /// The number of the variant (`IntoPrimitive`).
    pub fn code(self) -> (r: u8)
        ensures
            r == self.spec_code(),
    {
        match self {
            SecurityStatus::BelowExpectations => 1,
            SecurityStatus::MatchingExpectations => 2,
            SecurityStatus::AboveExpectations => 3,
            SecurityStatus::TodoAskBen => 4,
        }
    }

    /// The variant of a number (`TryFromPrimitive`); `None` for a number
    /// that stands for no variant.
    pub fn from_code(n: u8) -> (r: Option<SecurityStatus>)
        ensures
            r == Self::spec_from_code(n),
    {
        match n {
            1 => Some(SecurityStatus::BelowExpectations),
            2 => Some(SecurityStatus::MatchingExpectations),
            3 => Some(SecurityStatus::AboveExpectations),
            4 => Some(SecurityStatus::TodoAskBen),
            _ => None,
        }
    }

    /// Every variant is read back from its own number, and a number that
    /// reads as a variant is that variant's number.
    pub proof fn lemma_code_roundtrip(self, n: u8)
        ensures
            Self::spec_from_code(self.spec_code()) == Some(self),
            Self::spec_from_code(n) matches Some(e) ==> e.spec_code() == n,
    {
    }

    /// Each variant is read from the number registered for it and from no
    /// other: a number that reads as `e` is `e`'s registered number.
    pub proof fn lemma_registered_codes(n: u8, e: SecurityStatus)
        requires
            SecurityStatus::spec_from_code(n) == Some(e),
        ensures
            e is BelowExpectations <==> n == 1u8,
            e is MatchingExpectations <==> n == 2u8,
            e is AboveExpectations <==> n == 3u8,
            e is TodoAskBen <==> n == 4u8,
    {
    }
}
impl SecurityStatus {
    /// The variant that a byte stands for (`TryFrom<u8>`).
    pub fn try_from(n: u8) -> (r: Result<SecurityStatus, ()>)
        ensures
            match Self::spec_from_code(n) {
                Some(e) => r == Ok::<SecurityStatus, ()>(e),
                None => r is Err,
            },
    {
        match Self::from_code(n) {
            Some(e) => Ok(e),
            None => Err(()),
        }
    }
}

/// Whether a received frame was accepted, and why not.
#[derive(Debug, Clone, Copy, PartialEq, Eq, Structural)]
pub enum AcceptationStatus {
    Accepted,
    AcceptableRepeat,
    AcceptableReplay,
    AcceptableOutOfSeq,
    RejectedSecurityLevel,
    RejectedBadNlss,
    RejectedIllegal,
}

impl AcceptationStatus {
    /// The number that stands for each variant.
    pub open spec fn spec_code(self) -> u8 {
        match self {
            AcceptationStatus::Accepted => 0u8,
            AcceptationStatus::AcceptableRepeat => 1u8,
            AcceptationStatus::AcceptableReplay => 2u8,
            AcceptationStatus::AcceptableOutOfSeq => 3u8,
            AcceptationStatus::RejectedSecurityLevel => 4u8,
            AcceptationStatus::RejectedBadNlss => 5u8,
            AcceptationStatus::RejectedIllegal => 6u8,
        }
    }

    /// The variant that a number stands for, if any.
    pub open spec fn spec_from_code(n: u8) -> Option<AcceptationStatus> {
        match n {
            0u8 => Some(AcceptationStatus::Accepted),
            1u8 => Some(AcceptationStatus::AcceptableRepeat),
            2u8 => Some(AcceptationStatus::AcceptableReplay),
            3u8 => Some(AcceptationStatus::AcceptableOutOfSeq),
            4u8 => Some(AcceptationStatus::RejectedSecurityLevel),
            5u8 => Some(AcceptationStatus::RejectedBadNlss),
            6u8 => Some(AcceptationStatus::RejectedIllegal),
            _ => None,
        }
    }

    /// The number of the variant (`IntoPrimitive`).
    pub fn code(self) -> (r: u8)
        ensures
            r == self.spec_code(),
    {
        match self {
            AcceptationStatus::Accepted => 0,
            AcceptationStatus::AcceptableRepeat => 1,
            AcceptationStatus::AcceptableReplay => 2,
            AcceptationStatus::AcceptableOutOfSeq => 3,
            AcceptationStatus::RejectedSecurityLevel => 4,
            AcceptationStatus::RejectedBadNlss => 5,
            AcceptationStatus::RejectedIllegal => 6,
        }
    }

    /// The variant of a number (`TryFromPrimitive`); `None` for a number
    /// that stands for no variant.
    pub fn from_code(n: u8) -> (r: Option<AcceptationStatus>)
        ensures
            r == Self::spec_from_code(n),
    {
        match n {
            0 => Some(AcceptationStatus::Accepted),
            1 => Some(AcceptationStatus::AcceptableRepeat),
            2 => Some(AcceptationStatus::AcceptableReplay),
            3 => Some(AcceptationStatus::AcceptableOutOfSeq),
            4 => Some(AcceptationStatus::RejectedSecurityLevel),
            5 => Some(AcceptationStatus::RejectedBadNlss),
            6 => Some(AcceptationStatus::RejectedIllegal),
            _ => None,
        }
    }

    /// Every variant is read back from its own number, and a number that
    /// reads as a variant is that variant's number.
    pub proof fn lemma_code_roundtrip(self, n: u8)
        ensures
            Self::spec_from_code(self.spec_code()) == Some(self),
            Self::spec_from_code(n) matches Some(e) ==> e.spec_code() == n,
    {
    }

    /// Each variant is read from the number registered for it and from no
    /// other: a number that reads as `e` is `e`'s registered number.
    pub proof fn lemma_registered_codes(n: u8, e: AcceptationStatus)
        requires
            AcceptationStatus::spec_from_code(n) == Some(e),
        ensures
            e is Accepted <==> n == 0u8,
            e is AcceptableRepeat <==> n == 1u8,
            e is AcceptableReplay <==> n == 2u8,
            e is AcceptableOutOfSeq <==> n == 3u8,
            e is RejectedSecurityLevel <==> n == 4u8,
            e is RejectedBadNlss <==> n == 5u8,
            e is RejectedIllegal <==> n == 6u8,
    {
    }
}
impl AcceptationStatus {
    /// The variant that a byte stands for (`TryFrom<u8>`).
    pub fn try_from(n: u8) -> (r: Result<AcceptationStatus, ()>)
        ensures
            match Self::spec_from_code(n) {
                Some(e) => r == Ok::<AcceptationStatus, ()>(e),
                None => r is Err,
            },
    {
        match Self::from_code(n) {
            Some(e) => Ok(e),
            None => Err(()),
        }
    }
}

/// Link quality, from 0 to 5.
#[derive(Debug, Clone, Copy, PartialEq, Eq, Structural)]
pub enum Lqual {
    L0,
    L1,
    L2,
    L3,
    L4,
    L5,
}

impl Lqual {
    /// The number that stands for each variant.
    pub open spec fn spec_code(self) -> u8 {
        match self {
            Lqual::L0 => 0u8,
            Lqual::L1 => 1u8,
            Lqual::L2 => 2u8,
            Lqual::L3 => 3u8,
            Lqual::L4 => 4u8,
            Lqual::L5 => 5u8,
        }
    }

    /// The variant that a number stands for, if any.
    pub open spec fn spec_from_code(n: u8) -> Option<Lqual> {
        match n {
            0u8 => Some(Lqual::L0),
            1u8 => Some(Lqual::L1),
            2u8 => Some(Lqual::L2),
            3u8 => Some(Lqual::L3),
            4u8 => Some(Lqual::L4),
            5u8 => Some(Lqual::L5),
            _ => None,
        }
    }

    /// The number of the variant (`IntoPrimitive`).
    pub fn code(self) -> (r: u8)
        ensures
            r == self.spec_code(),
    {
        match self {
            Lqual::L0 => 0,
            Lqual::L1 => 1,
            Lqual::L2 => 2,
            Lqual::L3 => 3,
            Lqual::L4 => 4,
            Lqual::L5 => 5,
        }
    }

    /// The variant of a number (`TryFromPrimitive`); `None` for a number
    /// that stands for no variant.
    pub fn from_code(n: u8) -> (r: Option<Lqual>)
        ensures
            r == Self::spec_from_code(n),
    {
        match n {
            0 => Some(Lqual::L0),
            1 => Some(Lqual::L1),
            2 => Some(Lqual::L2),
            3 => Some(Lqual::L3),
            4 => Some(Lqual::L4),
            5 => Some(Lqual::L5),
            _ => None,
        }
    }

    /// Every variant is read back from its own number, and a number that
    /// reads as a variant is that variant's number.
    pub proof fn lemma_code_roundtrip(self, n: u8)
        ensures
            Self::spec_from_code(self.spec_code()) == Some(self),
            Self::spec_from_code(n) matches Some(e) ==> e.spec_code() == n,
    {
    }

    /// Each variant is read from the number registered for it and from no
    /// other: a number that reads as `e` is `e`'s registered number.
    pub proof fn lemma_registered_codes(n: u8, e: Lqual)
        requires
            Lqual::spec_from_code(n) == Some(e),
        ensures
            e is L0 <==> n == 0u8,
            e is L1 <==> n == 1u8,
            e is L2 <==> n == 2u8,
            e is L3 <==> n == 3u8,
            e is L4 <==> n == 4u8,
            e is L5 <==> n == 5u8,
    {
    }
}
impl Lqual {
    /// The variant that a byte stands for (`TryFrom<u8>`).
    pub fn try_from(n: u8) -> (r: Result<Lqual, ()>)
        ensures
            match Self::spec_from_code(n) {
                Some(e) => r == Ok::<Lqual, ()>(e),
                None => r is Err,
            },
    {
        match Self::from_code(n) {
            Some(e) => Ok(e),
            None => Err(()),
        }
    }
}


/// The bytes of `x` in reverse order (`u64::swap_bytes`).
pub open spec fn swap_bytes_spec(x: u64) -> u64 {
    ((x & 0xff) << 56u64) | (((x >> 8u64) & 0xff) << 48u64) | (((x >> 16u64) & 0xff) << 40u64)
        | (((x >> 24u64) & 0xff) << 32u64) | (((x >> 32u64) & 0xff) << 24u64) | (((x >> 40u64)
        & 0xff) << 16u64) | (((x >> 48u64) & 0xff) << 8u64) | ((x >> 56u64) & 0xff)
}

/// Reverses the bytes of `x`.
pub fn swap_bytes(x: u64) -> (r: u64)
    ensures
        r == swap_bytes_spec(x),
{
    ((x & 0xff) << 56u64) | (((x >> 8u64) & 0xff) << 48u64) | (((x >> 16u64) & 0xff) << 40u64)
        | (((x >> 24u64) & 0xff) << 32u64) | (((x >> 32u64) & 0xff) << 24u64) | (((x >> 40u64)
        & 0xff) << 16u64) | (((x >> 48u64) & 0xff) << 8u64) | ((x >> 56u64) & 0xff)
}

/// Reversing the bytes puts byte `i` (counted from the least significant)
/// of `x` at byte `7 - i` of the result.
pub proof fn lemma_swap_bytes_positions(x: u64)
    ensures
        swap_bytes_spec(x) & 0xff == (x >> 56u64) & 0xff,
        (swap_bytes_spec(x) >> 8u64) & 0xff == (x >> 48u64) & 0xff,
        (swap_bytes_spec(x) >> 16u64) & 0xff == (x >> 40u64) & 0xff,
        (swap_bytes_spec(x) >> 24u64) & 0xff == (x >> 32u64) & 0xff,
        (swap_bytes_spec(x) >> 32u64) & 0xff == (x >> 24u64) & 0xff,
        (swap_bytes_spec(x) >> 40u64) & 0xff == (x >> 16u64) & 0xff,
        (swap_bytes_spec(x) >> 48u64) & 0xff == (x >> 8u64) & 0xff,
        (swap_bytes_spec(x) >> 56u64) & 0xff == x & 0xff,
{
    assert(swap_bytes_spec(x) & 0xff == (x >> 56u64) & 0xff) by (bit_vector);
    assert((swap_bytes_spec(x) >> 8u64) & 0xff == (x >> 48u64) & 0xff) by (bit_vector);
    assert((swap_bytes_spec(x) >> 16u64) & 0xff == (x >> 40u64) & 0xff) by (bit_vector);
    assert((swap_bytes_spec(x) >> 24u64) & 0xff == (x >> 32u64) & 0xff) by (bit_vector);
    assert((swap_bytes_spec(x) >> 32u64) & 0xff == (x >> 24u64) & 0xff) by (bit_vector);
    assert((swap_bytes_spec(x) >> 40u64) & 0xff == (x >> 16u64) & 0xff) by (bit_vector);
    assert((swap_bytes_spec(x) >> 48u64) & 0xff == (x >> 8u64) & 0xff) by (bit_vector);
    assert((swap_bytes_spec(x) >> 56u64) & 0xff == x & 0xff) by (bit_vector);
}

/// Reversing the bytes twice gives the number back.
pub proof fn lemma_swap_bytes_involutive(x: u64)
    ensures
        swap_bytes_spec(swap_bytes_spec(x)) == x,
{
    assert(swap_bytes_spec(swap_bytes_spec(x)) == x) by (bit_vector);
}

/// The metadata of a report.
#[derive(Debug, Clone)]
pub struct Meta {
    pub uid: Uid,
    pub guid: Uid,
    pub gmuid: Uid,
    pub lb: u8,
    pub fid: u8,
    pub fname: String,
    pub device_type: u64,
    pub site_id: u16,
    pub lqual: Lqual,
    pub offset: u32,
    pub roaming: bool,
    pub ct: String,
    /// The frequency, by the IEEE 754 bits of its `f64`.
    pub freq: u64,
    pub status: u32,
    pub s_status: SecurityStatus,
    pub a_status: AcceptationStatus,
    pub timestamp: i64,
}

/// Why the metadata of a report is refused.
#[derive(Debug, Clone)]
pub enum MetaParseError {
    BadDeviceType(std::num::ParseIntError),
    BadLqual(u8),
    BadSecurityStatus(u8),
    BadAcceptationStatus(u8),
}

/// The device type that metadata writes: hexadecimal text, least
/// significant byte first.
pub open spec fn device_type_of(text: Seq<char>) -> u64 {
    swap_bytes_spec(hex_digits_value(radix_digits(text)) as u64)
}

/// What reading metadata gives: the first field that is refused, in the
/// order device type, link quality, security status, acceptation status;
/// otherwise the metadata with identifiers read from their text, the device
/// type from its hexadecimal text and every other field as it is.
pub open spec fn meta_outcome(m: raw::Meta, r: Result<Meta, MetaParseError>) -> bool {
    if !parses_as_hex_u64(m.device_type@) {
        r matches Err(MetaParseError::BadDeviceType(_))
    } else if Lqual::spec_from_code(m.lqual) is None {
        r == Err::<Meta, MetaParseError>(MetaParseError::BadLqual(m.lqual))
    } else if SecurityStatus::spec_from_code(m.s_status) is None {
        r == Err::<Meta, MetaParseError>(MetaParseError::BadSecurityStatus(m.s_status))
    } else if AcceptationStatus::spec_from_code(m.a_status) is None {
        r == Err::<Meta, MetaParseError>(MetaParseError::BadAcceptationStatus(m.a_status))
    } else {
        r matches Ok(meta) && {
            &&& meta.uid@ == uid_from_spec(m.uid@)
            &&& meta.guid@ == uid_from_spec(m.guid@)
            &&& meta.gmuid@ == uid_from_spec(m.gmuid@)
            &&& meta.lb == m.lb
            &&& meta.fid == m.fid
            &&& meta.fname == m.fname
            &&& meta.device_type == device_type_of(m.device_type@)
            &&& meta.site_id == m.site_id
            &&& Lqual::spec_from_code(m.lqual) == Some(meta.lqual)
            &&& meta.offset == m.offset
            &&& meta.roaming == m.roaming
            &&& meta.ct == m.ct
            &&& meta.freq == m.freq
            &&& meta.status == m.status
            &&& SecurityStatus::spec_from_code(m.s_status) == Some(meta.s_status)
            &&& AcceptationStatus::spec_from_code(m.a_status) == Some(meta.a_status)
            &&& meta.timestamp == m.timestamp
        }
    }
}

/// Read metadata carries the levels its numbers stand for: link quality
/// `n` is level `Ln`, security statuses are numbered from 1 and acceptation
/// statuses from 0, in the order the registry lists them.
pub proof fn lemma_meta_levels(m: raw::Meta, meta: Meta)
    requires
        meta_outcome(m, Ok(meta)),
    ensures
        meta.lqual is L0 <==> m.lqual == 0,
        meta.lqual is L1 <==> m.lqual == 1,
        meta.lqual is L2 <==> m.lqual == 2,
        meta.lqual is L3 <==> m.lqual == 3,
        meta.lqual is L4 <==> m.lqual == 4,
        meta.lqual is L5 <==> m.lqual == 5,
        meta.s_status is BelowExpectations <==> m.s_status == 1,
        meta.s_status is MatchingExpectations <==> m.s_status == 2,
        meta.s_status is AboveExpectations <==> m.s_status == 3,
        meta.s_status is TodoAskBen <==> m.s_status == 4,
        meta.a_status is Accepted <==> m.a_status == 0,
        meta.a_status is AcceptableRepeat <==> m.a_status == 1,
        meta.a_status is AcceptableReplay <==> m.a_status == 2,
        meta.a_status is AcceptableOutOfSeq <==> m.a_status == 3,
        meta.a_status is RejectedSecurityLevel <==> m.a_status == 4,
        meta.a_status is RejectedBadNlss <==> m.a_status == 5,
        meta.a_status is RejectedIllegal <==> m.a_status == 6,
{
    Lqual::lemma_registered_codes(m.lqual, meta.lqual);
    SecurityStatus::lemma_registered_codes(m.s_status, meta.s_status);
    AcceptationStatus::lemma_registered_codes(m.a_status, meta.a_status);
}

/// A link quality above 5, a security status outside 1..=4 or an
/// acceptation status above 6 refuses the metadata.
pub proof fn lemma_meta_levels_in_range(m: raw::Meta, r: Result<Meta, MetaParseError>)
    requires
        meta_outcome(m, r),
        m.lqual > 5 || m.s_status == 0 || m.s_status > 4 || m.a_status > 6,
    ensures
        r is Err,
{
    match r {
        Ok(meta) => lemma_meta_levels(m, meta),
        Err(_) => {},
    }
}

impl Meta {
    /// Reads the metadata of a report.
    pub fn try_from(meta: raw::Meta) -> (r: Result<Meta, MetaParseError>)
        ensures
            meta_outcome(meta, r),
    {
        let raw::Meta {
            uid,
            guid,
            gmuid,
            lb,
            fid,
            fname,
            device_type,
            site_id,
            lqual,
            offset,
            roaming,
            ct,
            freq,
            status,
            s_status,
            a_status,
            timestamp,
        } = meta;
        let uid = Uid::from(uid);
        let guid = Uid::from(guid);
        let gmuid = Uid::from(gmuid);
        let device_type = match u64_from_hex_str(device_type.as_str()) {
            Ok(v) => swap_bytes(v),
            Err(e) => return Err(MetaParseError::BadDeviceType(e)),
        };
        let lqual_v = match Lqual::try_from(lqual) {
            Ok(l) => l,
            Err(_) => return Err(MetaParseError::BadLqual(lqual)),
        };
        let s_status_v = match SecurityStatus::try_from(s_status) {
            Ok(s) => s,
            Err(_) => return Err(MetaParseError::BadSecurityStatus(s_status)),
        };
        let a_status_v = match AcceptationStatus::try_from(a_status) {
            Ok(a) => a,
            Err(_) => return Err(MetaParseError::BadAcceptationStatus(a_status)),
        };
        Ok(Meta {
            uid,
            guid,
            gmuid,
            lb,
            fid,
            fname,
            device_type,
            site_id,
            lqual: lqual_v,
            offset,
            roaming,
            ct,
            freq,
            status,
            s_status: s_status_v,
            a_status: a_status_v,
            timestamp,
        })
    }
}

/// A field of a known report.
#[derive(Debug, Clone)]
pub enum DataValue {
    PositiveInteger(u64),
    /// A negative integer, by its two's complement negation.
    NegativeInteger(u64),
    /// A number that is not an integer, by the IEEE 754 bits of its `f64`.
    Float(u64),
    Raw(Vec<u8>),
    BitFields(Vec<(String, u64)>),
}

/// Why a field of a known report is refused.
#[derive(Debug, Clone)]
pub enum DataValueParseError {
    BadRawHex(hex::FromHexError),
}

/// `(-n) as u64`: the negation of `n`, two's complement.
pub open spec fn negated_as_u64(n: i64) -> u64 {
    if n <= 0 {
        (-n) as u64
    } else {
        (0x1_0000_0000_0000_0000 - n) as u64
    }
}

/// The negation of a negative field, added to the field, is zero modulo
/// 2^64; for every field but `i64::MIN` it is the field's magnitude.
pub proof fn lemma_negated_as_u64(n: i64)
    ensures
        (negated_as_u64(n) + n) % 0x1_0000_0000_0000_0000 == 0,
        n < 0 && n != i64::MIN ==> negated_as_u64(n) == -n,
{
}

/// A field whose negation overflows (`-i64::MIN`).
pub open spec fn overflowing_field(d: raw::DataValue) -> bool {
    d matches raw::DataValue::NegativeInteger(n) && n == i64::MIN
}

/// A field that is refused: raw bytes that are not hexadecimal text.
pub open spec fn bad_field(d: raw::DataValue) -> bool {
    d matches raw::DataValue::Raw { hex } && !is_hex(hex@)
}

/// What reading a field gives: integers and bit fields as they are,
/// negative integers negated, raw bytes decoded from their hexadecimal text.
pub open spec fn data_value_outcome(d: raw::DataValue, r: Result<DataValue, DataValueParseError>) -> bool {
    match d {
        raw::DataValue::PositiveInteger(n) => r == Ok::<DataValue, DataValueParseError>(
            DataValue::PositiveInteger(n),
        ),
        raw::DataValue::NegativeInteger(n) => r == Ok::<DataValue, DataValueParseError>(
            DataValue::NegativeInteger(negated_as_u64(n)),
        ),
        raw::DataValue::Float(f) => r == Ok::<DataValue, DataValueParseError>(
            DataValue::Float(f),
        ),
        raw::DataValue::Raw { hex } => if is_hex(hex@) {
            r matches Ok(DataValue::Raw(b)) && b@ == hex_decoded(hex@)
        } else {
            r matches Err(DataValueParseError::BadRawHex(_))
        },
        raw::DataValue::BitFields(f) => r == Ok::<DataValue, DataValueParseError>(
            DataValue::BitFields(f),
        ),
    }
}

impl DataValue {
    /// Reads a field of a known report.
    pub fn try_from(data: raw::DataValue) -> (r: Result<DataValue, DataValueParseError>)
        requires
            !overflowing_field(data),
        ensures
            data_value_outcome(data, r),
    {
        match data {
            raw::DataValue::PositiveInteger(n) => Ok(DataValue::PositiveInteger(n)),
            raw::DataValue::NegativeInteger(n) => {
                let v: u64 = if n <= 0 {
                    (-n) as u64
                } else {
                    (u64::MAX - n as u64) + 1
                };
                Ok(DataValue::NegativeInteger(v))
            },
            raw::DataValue::Float(f) => Ok(DataValue::Float(f)),
            raw::DataValue::Raw { hex } => match hex_decode(hex.as_str()) {
                Ok(b) => Ok(DataValue::Raw(b)),
                Err(e) => Err(DataValueParseError::BadRawHex(e)),
            },
            raw::DataValue::BitFields(fields) => Ok(DataValue::BitFields(fields)),
        }
    }
}

/// The payload of a raw report: an offset and bytes.
#[derive(Debug, Clone)]
pub struct RawReportMsg {
    pub offset: u32,
    pub payload: Vec<u8>,
}

/// Why the payload of a raw report is refused: it is not hexadecimal text.
#[derive(Debug, Clone)]
pub enum RawReportMsgParseError {
    NonHexPayload(String),
}

/// What reading a raw payload gives: the offset, and the bytes that the
/// hexadecimal text stands for; or the text itself when it is not
/// hexadecimal.
pub open spec fn raw_msg_outcome(m: raw::RawReportMsg, r: Result<RawReportMsg, RawReportMsgParseError>) -> bool {
    if is_hex(m.payload@) {
        r matches Ok(p) && p.offset == m.offset && p.payload@ == hex_decoded(m.payload@)
    } else {
        r == Err::<RawReportMsg, RawReportMsgParseError>(
            RawReportMsgParseError::NonHexPayload(m.payload),
        )
    }
}

impl RawReportMsg {
    /// Reads the payload of a raw report.
    pub fn try_from(report: raw::RawReportMsg) -> (r: Result<RawReportMsg, RawReportMsgParseError>)
        ensures
            raw_msg_outcome(report, r),
    {
        match hex_decode(report.payload.as_str()) {
            Ok(payload) => Ok(RawReportMsg { offset: report.offset, payload }),
            Err(_) => Err(RawReportMsgParseError::NonHexPayload(report.payload)),
        }
    }
}

/// The message of a report: fields by name, or raw bytes.
#[derive(Debug, Clone)]
pub enum ReportMsg {
    Known(Vec<(String, DataValue)>),
    Raw(RawReportMsg),
}

/// A report.
#[derive(Debug, Clone)]
pub struct Report {
    pub meta: Meta,
    pub msg: ReportMsg,
}

/// Why a report is refused.
#[derive(Debug, Clone)]
pub enum ReportParseError {
    /// The text is not JSON of the expected shape; the text of the error says why.
    Json(String),
    Meta(MetaParseError),
    Msg(DataValueParseError),
    RawMsg(RawReportMsgParseError),
}

/// The index of the first refused field, if any.
pub open spec fn first_bad_field(fields: Seq<(String, raw::DataValue)>) -> Option<int>
    decreases fields.len(),
{
    if fields.len() == 0 {
        None
    } else if bad_field(fields[0].1) {
        Some(0)
    } else {
        match first_bad_field(fields.drop_first()) {
            Some(i) => Some(i + 1),
            None => None,
        }
    }
}

/// `out` holds the fields of `fields`, in order, each under its own name
/// and read as [`DataValue::try_from`] reads it.
pub open spec fn fields_read(fields: Seq<(String, raw::DataValue)>, out: Seq<(String, DataValue)>) -> bool {
    &&& out.len() == fields.len()
    &&& forall|j: int|
        0 <= j < out.len() ==> #[trigger] out[j].0 == fields[j].0 && data_value_outcome(
            fields[j].1,
            Ok(out[j].1),
        )
}

/// No field of a known report overflows when negated.
pub open spec fn fields_in_range(r: raw::Report) -> bool {
    match r {
        raw::Report::Known(k) => forall|j: int|
            0 <= j < k.msg@.len() ==> !overflowing_field(#[trigger] k.msg@[j].1),
        raw::Report::Raw(_) => true,
    }
}

/// Meta outcome of a report: the metadata is read first.
pub open spec fn report_meta_outcome(m: raw::Meta, r: Result<Report, ReportParseError>) -> bool {
    match r {
        Ok(rep) => meta_outcome(m, Ok(rep.meta)),
        Err(ReportParseError::Meta(e)) => meta_outcome(m, Err(e)),
        Err(_) => exists|meta: Meta| meta_outcome(m, Ok(meta)),
    }
}

/// What reading a report gives: the metadata first, then the message;
/// fields are read in order and the first refused one refuses the report.
pub open spec fn report_outcome(report: raw::Report, r: Result<Report, ReportParseError>) -> bool {
    match report {
        raw::Report::Known(k) => {
            &&& report_meta_outcome(k.meta, r)
            &&& match r {
                Ok(rep) => first_bad_field(k.msg@) is None && (rep.msg matches ReportMsg::Known(f)
                    && fields_read(k.msg@, f@)),
                Err(ReportParseError::Msg(e)) => first_bad_field(k.msg@) matches Some(j)
                    && data_value_outcome(k.msg@[j].1, Err(e)),
                Err(ReportParseError::Meta(_)) => true,
                Err(_) => false,
            }
        },
        raw::Report::Raw(rr) => {
            &&& report_meta_outcome(rr.meta, r)
            &&& match r {
                Ok(rep) => exists|p: RawReportMsg|
                    raw_msg_outcome(rr.rmsg, Ok(p)) && rep.msg == ReportMsg::Raw(p),
                Err(ReportParseError::RawMsg(e)) => raw_msg_outcome(rr.rmsg, Err(e)),
                Err(ReportParseError::Meta(_)) => true,
                Err(_) => false,
            }
        },
    }
}

/// No name occurs twice among named entries (the fields of a report, or
/// the bits of a bit field value, which the service writes as JSON
/// objects).
pub open spec fn names_distinct<V>(fields: Seq<(String, V)>) -> bool {
    forall|i: int, j: int|
        0 <= i < j < fields.len() ==> #[trigger] fields[i].0@ != #[trigger] fields[j].0@
}

/// The bits of a written bit field value are named once each.
pub open spec fn raw_value_names_distinct(d: raw::DataValue) -> bool {
    match d {
        raw::DataValue::BitFields(f) => names_distinct(f@),
        _ => true,
    }
}

/// The bits of a bit field value are named once each.
pub open spec fn value_names_distinct(d: DataValue) -> bool {
    match d {
        DataValue::BitFields(f) => names_distinct(f@),
        _ => true,
    }
}

/// A written report names each field once, and each bit of a bit field
/// once: it comes from JSON objects.
pub open spec fn report_names_distinct(r: raw::Report) -> bool {
    match r {
        raw::Report::Known(k) => names_distinct(k.msg@) && forall|j: int|
            0 <= j < k.msg@.len() ==> raw_value_names_distinct(#[trigger] k.msg@[j].1),
        raw::Report::Raw(_) => true,
    }
}

/// A report names each field once, and each bit of a bit field once.
pub open spec fn read_names_distinct(r: Report) -> bool {
    match r.msg {
        ReportMsg::Known(f) => names_distinct(f@) && forall|j: int|
            0 <= j < f@.len() ==> value_names_distinct(#[trigger] f@[j].1),
        ReportMsg::Raw(_) => true,
    }
}

/// Fields read from fields named once each are named once each.
proof fn lemma_read_names_distinct(fields: Seq<(String, raw::DataValue)>, out: Seq<(String, DataValue)>)
    requires
        fields_read(fields, out),
        names_distinct(fields),
        forall|j: int| 0 <= j < fields.len() ==> raw_value_names_distinct(#[trigger] fields[j].1),
    ensures
        names_distinct(out),
        forall|j: int| 0 <= j < out.len() ==> value_names_distinct(#[trigger] out[j].1),
{
    assert forall|i: int, j: int| 0 <= i < j < out.len() implies #[trigger] out[i].0@
        != #[trigger] out[j].0@ by {
        assert(out[i].0 == fields[i].0);
        assert(out[j].0 == fields[j].0);
        assert(fields[i].0@ != fields[j].0@);
    }
    assert forall|j: int| 0 <= j < out.len() implies value_names_distinct(#[trigger] out[j].1) by {
        assert(out[j].0 == fields[j].0);
        assert(raw_value_names_distinct(fields[j].1));
    }
}

/// Whether named entries name each name once.
fn entry_names_distinct<V>(fields: &Vec<(String, V)>) -> (r: bool)
    ensures
        r == names_distinct(fields@),
{
    let mut j: usize = 0;
    while j < fields.len()
        invariant
            j <= fields@.len(),
            forall|a: int, b: int|
                0 <= a < b < j ==> #[trigger] fields@[a].0@ != #[trigger] fields@[b].0@,
        decreases fields@.len() - j,
    {
        let mut i: usize = 0;
        while i < j
            invariant
                i <= j < fields@.len(),
                forall|a: int| 0 <= a < i ==> #[trigger] fields@[a].0@ != fields@[j as int].0@,
            decreases j - i,
        {
            if str_eq(fields[i].0.as_str(), fields[j].0.as_str()) {
                assert(fields@[i as int].0@ == fields@[j as int].0@);
                return false;
            }
            i = i + 1;
        }
        assert forall|a: int, b: int| 0 <= a < b < j + 1 implies #[trigger] fields@[a].0@
            != #[trigger] fields@[b].0@ by {
            if b == j {
                assert(fields@[a].0@ != fields@[j as int].0@);
            }
        }
        j = j + 1;
    }
    true
}

/// Whether a written report names each field once and each bit of a bit
/// field once.
pub fn field_names_distinct(report: &raw::Report) -> (r: bool)
    ensures
        r == report_names_distinct(*report),
{
    match report {
        raw::Report::Known(k) => {
            if !entry_names_distinct(&k.msg) {
                return false;
            }
            let mut j: usize = 0;
            while j < k.msg.len()
                invariant
                    j <= k.msg@.len(),
                    *report == raw::Report::Known(*k),
                    names_distinct(k.msg@),
                    forall|a: int| 0 <= a < j ==> raw_value_names_distinct(#[trigger] k.msg@[a].1),
                decreases k.msg@.len() - j,
            {
                match &k.msg[j].1 {
                    raw::DataValue::BitFields(f) => {
                        if !entry_names_distinct(f) {
                            proof {
                                assert(!raw_value_names_distinct(k.msg@[j as int].1));
                                assert(report->Known_0 == *k);
                                assert(report_names_distinct(*report) ==> raw_value_names_distinct(
                                    k.msg@[j as int].1,
                                ));
                            }
                            return false;
                        }
                    },
                    _ => {},
                }
                j = j + 1;
            }
            true
        },
        raw::Report::Raw(_) => true,
    }
}

/// Reads the fields of a known report in order.
fn read_fields(fields: Vec<(String, raw::DataValue)>) -> (r: Result<
    Vec<(String, DataValue)>,
    DataValueParseError,
>)
    requires
        forall|j: int| 0 <= j < fields@.len() ==> !overflowing_field(#[trigger] fields@[j].1),
    ensures
        match r {
            Ok(out) => first_bad_field(fields@) is None && fields_read(fields@, out@),
            Err(e) => match first_bad_field(fields@) {
                Some(j) => data_value_outcome(fields@[j].1, Err(e)),
                None => false,
            },
        },
{
    let ghost all = fields@;
    let mut rest = fields;
    let mut out: Vec<(String, DataValue)> = Vec::new();
    let mut i: usize = 0;
    let n = rest.len();
    assert(all.skip(0) =~= all);
    while rest.len() > 0
        invariant
            all == fields@,
            n == all.len(),
            i <= all.len(),
            rest@ == all.skip(i as int),
            first_bad_field(all) == (match first_bad_field(all.skip(i as int)) {
                Some(j) => Some(j + i),
                None => None::<int>,
            }),
            forall|j: int| 0 <= j < all.len() ==> !overflowing_field(#[trigger] all[j].1),
            out@.len() == i,
            forall|j: int|
                0 <= j < i ==> #[trigger] out@[j].0 == all[j].0 && data_value_outcome(
                    all[j].1,
                    Ok(out@[j].1),
                ),
        decreases rest@.len(),
    {
        let ghost tail = all.skip(i as int);
        assert(i < all.len());
        assert(tail[0] == all[i as int]);
        let (name, value) = rest.remove(0);
        assert(value == all[i as int].1 && name == all[i as int].0);
        assert(rest@ =~= all.skip(i + 1));
        assert(tail.drop_first() =~= all.skip(i + 1));
        match DataValue::try_from(value) {
            Ok(v) => {
                assert(!bad_field(all[i as int].1));
                assert(first_bad_field(tail) == (match first_bad_field(tail.drop_first()) {
                    Some(j) => Some(j + 1),
                    None => None::<int>,
                }));
                out.push((name, v));
                i = i + 1;
            },
            Err(e) => {
                assert(bad_field(all[i as int].1));
                assert(first_bad_field(tail) == Some(0int));
                assert(first_bad_field(all) == Some(i as int));
                assert(data_value_outcome(all[i as int].1, Err(e)));
                return Err(e);
            },
        }
    }
    assert(out@.len() == all.len());
    Ok(out)
}

impl Report {
    /// Reads a report.
    pub fn try_from(report: raw::Report) -> (r: Result<Report, ReportParseError>)
        requires
            fields_in_range(report),
            report_names_distinct(report),
        ensures
            report_outcome(report, r),
            r matches Ok(rep) ==> read_names_distinct(rep),
    {
        match report {
            raw::Report::Known(k) => {
                let meta = match Meta::try_from(k.meta) {
                    Ok(m) => m,
                    Err(e) => return Err(ReportParseError::Meta(e)),
                };
                let ghost written = k.msg@;
                let fields = match read_fields(k.msg) {
                    Ok(f) => f,
                    Err(e) => return Err(ReportParseError::Msg(e)),
                };
                proof {
                    lemma_read_names_distinct(written, fields@);
                }
                Ok(Report { meta, msg: ReportMsg::Known(fields) })
            },
            raw::Report::Raw(rr) => {
                let meta = match Meta::try_from(rr.meta) {
                    Ok(m) => m,
                    Err(e) => return Err(ReportParseError::Meta(e)),
                };
                let rmsg = match RawReportMsg::try_from(rr.rmsg) {
                    Ok(p) => p,
                    Err(e) => return Err(ReportParseError::RawMsg(e)),
                };
                Ok(Report { meta, msg: ReportMsg::Raw(rmsg) })
            },
        }
    }
}

/// Whether no field of a report overflows when negated; a report for
/// which this fails cannot be read.
pub fn fields_within_range(report: &raw::Report) -> (r: bool)
    ensures
        r == fields_in_range(*report),
{
    match report {
        raw::Report::Known(k) => {
            let mut i: usize = 0;
            while i < k.msg.len()
                invariant
                    i <= k.msg@.len(),
                    *report == raw::Report::Known(*k),
                    forall|j: int| 0 <= j < i ==> !overflowing_field(#[trigger] k.msg@[j].1),
                decreases k.msg@.len() - i,
            {
                match &k.msg[i].1 {
                    raw::DataValue::NegativeInteger(n) => {
                        if *n == i64::MIN {
                            proof {
                                assert(report->Known_0 == *k);
                                assert(fields_in_range(*report) ==> !overflowing_field(
                                    k.msg@[i as int].1,
                                ));
                            }
                            return false;
                        }
                    },
                    _ => {},
                }
                i = i + 1;
            }
            true
        },
        raw::Report::Raw(_) => true,
    }
}

/// Reads a report from the outcome of parsing its JSON text (`parse`
/// after the JSON step): a parse error is a JSON error, and a parsed
/// report is read.
pub fn parse_parsed(parsed: Result<raw::Report, String>) -> (r: Result<Report, ReportParseError>)
    requires
        parsed matches Ok(rep) ==> fields_in_range(rep) && report_names_distinct(rep),
    ensures
        match parsed {
            Err(m) => r matches Err(ReportParseError::Json(e)) && e == m,
            Ok(rep) => report_outcome(rep, r),
        },
        r matches Ok(rep) ==> read_names_distinct(rep),
{
    match parsed {
        Err(m) => Err(ReportParseError::Json(m)),
        Ok(rep) => Report::try_from(rep),
    }
}

/// A raw report, read.
#[derive(Debug, Clone)]
pub struct RawReport {
    pub meta: Meta,
    pub rmsg: RawReportMsg,
}

/// Why a raw report is refused.
#[derive(Debug, Clone)]
pub enum RawReportParseError {
    Meta(MetaParseError),
    Rmsg(RawReportMsgParseError),
}

impl RawReport {
    /// Reads a raw report: the metadata first, then the payload.
    pub fn try_from(report: raw::RawReport) -> (r: Result<RawReport, RawReportParseError>)
        ensures
            match r {
                Ok(rep) => meta_outcome(report.meta, Ok(rep.meta)) && raw_msg_outcome(
                    report.rmsg,
                    Ok(rep.rmsg),
                ),
                Err(RawReportParseError::Meta(e)) => meta_outcome(report.meta, Err(e)),
                Err(RawReportParseError::Rmsg(e)) => (exists|meta: Meta|
                    meta_outcome(report.meta, Ok(meta))) && raw_msg_outcome(report.rmsg, Err(e)),
            },
    {
        let meta = match Meta::try_from(report.meta) {
            Ok(m) => m,
            Err(e) => return Err(RawReportParseError::Meta(e)),
        };
        let rmsg = match RawReportMsg::try_from(report.rmsg) {
            Ok(p) => p,
            Err(e) => return Err(RawReportParseError::Rmsg(e)),
        };
        Ok(RawReport { meta, rmsg })
    }
}

} // verus!

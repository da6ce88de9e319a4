//! The log of a uGuard tag: twenty-byte entries, each a little-endian
//! timestamp, an action byte and the action's data, written in hexadecimal.
use vstd::prelude::*;
use crate::hex_text::{hex_decode_to_slice, hex_decoded, is_hex};
use crate::json::{lookup, object_get, JsonValue};
use crate::xml::XMLError;

verus! {

/// A tag seen by a controller.
#[derive(Debug, Clone, Copy)]
pub struct LogEntryTag {
    /// VID
    pub vid: u16,
    /// Distance in dcm
    pub distance: u8,
}

/// An entry that reports distances: driver, warning and alarm on.
#[derive(Debug, Clone, Copy)]
pub struct LogEntryDistance {
    /// Timestamp
    pub ts: u32,
    /// VID
    pub controller_vid: u16,
    /// Distance in dcm
    pub distance: u8,
    /// Tags
    pub tag: [LogEntryTag; 4],
}

/// An entry that only carries its time: driver, warning and alarm off.
#[derive(Debug, Clone, Copy)]
pub struct LogEntryOff {
    /// Timestamp
    pub ts: u32,
}

/// A boot entry.
#[derive(Debug, Clone, Copy)]
pub struct LogEntryBoot {
    /// Timestamp
    pub ts: u32,
    /// Last Reset Cause
    pub reset_cause: char,
    /// Number of asserts
    pub assert_count: u16,
    /// ID of last assert
    pub last_assert: u32,
    /// 1st argument of last assert
    pub last_assert_arg: u32,
}

/// A battery entry: plugged, unplugged, critical.
#[derive(Debug, Clone, Copy)]
pub struct LogEntryBattery {
    /// Timestamp
    pub ts: u32,
    /// Battery voltage in mV
    pub vbat: u16,
}

/// A state entry: start and stop.
#[derive(Debug, Clone, Copy)]
pub struct LogEntryState {
    /// Timestamp
    pub ts: u32,
    pub state: TagState,
    pub active: bool,
    pub cup: bool,
    pub facedown: bool,
    pub stable: bool,
    pub configured: bool,
    pub running: bool,
    pub plugged: bool,
    pub battery_critical: bool,
}

/// The state a tag reports in its state log entries.
#[derive(Debug, Clone, Copy, PartialEq, Eq, Structural)]
pub enum TagState {
    Good,
    Error,
    Stopped,
}

impl TagState {
    /// The number that stands for each variant.
    pub open spec fn spec_code(self) -> u8 {
        match self {
            TagState::Good => 0u8,
            TagState::Error => 1u8,
            TagState::Stopped => 2u8,
        }
    }

    /// The variant that a number stands for, if any.
    pub open spec fn spec_from_code(n: u8) -> Option<TagState> {
        match n {
            0u8 => Some(TagState::Good),
            1u8 => Some(TagState::Error),
            2u8 => Some(TagState::Stopped),
            _ => None,
        }
    }

    /// The number of the variant (`IntoPrimitive`).
    pub fn code(self) -> (r: u8)
        ensures
            r == self.spec_code(),
    {
        match self {
            TagState::Good => 0,
            TagState::Error => 1,
            TagState::Stopped => 2,
        }
    }

    /// The variant of a number (`TryFromPrimitive`); `None` for a number
    /// that stands for no variant.
    pub fn from_code(n: u8) -> (r: Option<TagState>)
        ensures
            r == Self::spec_from_code(n),
    {
        match n {
            0 => Some(TagState::Good),
            1 => Some(TagState::Error),
            2 => Some(TagState::Stopped),
            _ => None,
        }
    }

    /// Every variant is read back from its own number, and a number that
    /// reads as a variant is that variant's number.
    pub proof fn lemma_code_roundtrip(self, n: u8)
        ensures
            Self::spec_from_code(self.spec_code()) == Some(self),
            Self::spec_from_code(n) matches Some(e) ==> e.spec_code() == n,
    {
    }

    /// Each variant is read from the number registered for it and from no
    /// other: a number that reads as `e` is `e`'s registered number.
    pub proof fn lemma_registered_codes(n: u8, e: TagState)
        requires
            TagState::spec_from_code(n) == Some(e),
        ensures
            e is Good <==> n == 0u8,
            e is Error <==> n == 1u8,
            e is Stopped <==> n == 2u8,
    {
    }
}

/// The kinds of tag log entries, by the number in byte 4 of an entry.
#[derive(Debug, Clone, Copy, PartialEq, Eq, Structural)]
pub enum ActionEnum {
    Boot,
    DriverOn,
    DriverOff,
    WarningOn,
    WarningOff,
    AlarmOn,
    AlarmOff,
    BatteryPlugged,
    BatteryUnplugged,
    BatteryCritical,
    StateStart,
    StateStop,
}

impl ActionEnum {
    /// The number that stands for each variant.
    pub open spec fn spec_code(self) -> u8 {
        match self {
            ActionEnum::Boot => 0u8,
            ActionEnum::DriverOn => 1u8,
            ActionEnum::DriverOff => 2u8,
            ActionEnum::WarningOn => 3u8,
            ActionEnum::WarningOff => 4u8,
            ActionEnum::AlarmOn => 5u8,
            ActionEnum::AlarmOff => 6u8,
            ActionEnum::BatteryPlugged => 7u8,
            ActionEnum::BatteryUnplugged => 8u8,
            ActionEnum::BatteryCritical => 9u8,
            ActionEnum::StateStart => 10u8,
            ActionEnum::StateStop => 11u8,
        }
    }

    /// The variant that a number stands for, if any.
    pub open spec fn spec_from_code(n: u8) -> Option<ActionEnum> {
        match n {
            0u8 => Some(ActionEnum::Boot),
            1u8 => Some(ActionEnum::DriverOn),
            2u8 => Some(ActionEnum::DriverOff),
            3u8 => Some(ActionEnum::WarningOn),
            4u8 => Some(ActionEnum::WarningOff),
            5u8 => Some(ActionEnum::AlarmOn),
            6u8 => Some(ActionEnum::AlarmOff),
            7u8 => Some(ActionEnum::BatteryPlugged),
            8u8 => Some(ActionEnum::BatteryUnplugged),
            9u8 => Some(ActionEnum::BatteryCritical),
            10u8 => Some(ActionEnum::StateStart),
            11u8 => Some(ActionEnum::StateStop),
            _ => None,
        }
    }

    /// The number of the variant (`IntoPrimitive`).
    pub fn code(self) -> (r: u8)
        ensures
            r == self.spec_code(),
    {
        match self {
            ActionEnum::Boot => 0,
            ActionEnum::DriverOn => 1,
            ActionEnum::DriverOff => 2,
            ActionEnum::WarningOn => 3,
            ActionEnum::WarningOff => 4,
            ActionEnum::AlarmOn => 5,
            ActionEnum::AlarmOff => 6,
            ActionEnum::BatteryPlugged => 7,
            ActionEnum::BatteryUnplugged => 8,
            ActionEnum::BatteryCritical => 9,
            ActionEnum::StateStart => 10,
            ActionEnum::StateStop => 11,
        }
    }

    /// The variant of a number (`TryFromPrimitive`); `None` for a number
    /// that stands for no variant.
    pub fn from_code(n: u8) -> (r: Option<ActionEnum>)
        ensures
            r == Self::spec_from_code(n),
    {
        match n {
            0 => Some(ActionEnum::Boot),
            1 => Some(ActionEnum::DriverOn),
            2 => Some(ActionEnum::DriverOff),
            3 => Some(ActionEnum::WarningOn),
            4 => Some(ActionEnum::WarningOff),
            5 => Some(ActionEnum::AlarmOn),
            6 => Some(ActionEnum::AlarmOff),
            7 => Some(ActionEnum::BatteryPlugged),
            8 => Some(ActionEnum::BatteryUnplugged),
            9 => Some(ActionEnum::BatteryCritical),
            10 => Some(ActionEnum::StateStart),
            11 => Some(ActionEnum::StateStop),
            _ => None,
        }
    }

    /// Every variant is read back from its own number, and a number that
    /// reads as a variant is that variant's number.
    pub proof fn lemma_code_roundtrip(self, n: u8)
        ensures
            Self::spec_from_code(self.spec_code()) == Some(self),
            Self::spec_from_code(n) matches Some(e) ==> e.spec_code() == n,
    {
    }

    /// Each variant is read from the number registered for it and from no
    /// other: a number that reads as `e` is `e`'s registered number.
    pub proof fn lemma_registered_codes(n: u8, e: ActionEnum)
        requires
            ActionEnum::spec_from_code(n) == Some(e),
        ensures
            e is Boot <==> n == 0u8,
            e is DriverOn <==> n == 1u8,
            e is DriverOff <==> n == 2u8,
            e is WarningOn <==> n == 3u8,
            e is WarningOff <==> n == 4u8,
            e is AlarmOn <==> n == 5u8,
            e is AlarmOff <==> n == 6u8,
            e is BatteryPlugged <==> n == 7u8,
            e is BatteryUnplugged <==> n == 8u8,
            e is BatteryCritical <==> n == 9u8,
            e is StateStart <==> n == 10u8,
            e is StateStop <==> n == 11u8,
    {
    }
}

impl ActionEnum {
    /// Actions whose entry reports distances.
    pub open spec fn is_distance(self) -> bool {
        self == ActionEnum::AlarmOn || self == ActionEnum::DriverOn || self == ActionEnum::WarningOn
    }

    /// Actions whose entry carries only its time.
    pub open spec fn is_off(self) -> bool {
        self == ActionEnum::AlarmOff || self == ActionEnum::DriverOff || self
            == ActionEnum::WarningOff
    }

    /// The boot action.
    pub open spec fn is_boot(self) -> bool {
        self == ActionEnum::Boot
    }

    /// Actions whose entry reports the battery.
    pub open spec fn is_battery(self) -> bool {
        self == ActionEnum::BatteryPlugged || self == ActionEnum::BatteryUnplugged || self
            == ActionEnum::BatteryCritical
    }

    /// Actions whose entry reports the tag state.
    pub open spec fn is_state(self) -> bool {
        self == ActionEnum::StateStop || self == ActionEnum::StateStart
    }
}

/// A decoded tag log entry, by action.
#[derive(Debug, Clone, Copy)]
pub enum TagLogAction {
    Boot(LogEntryBoot),
    DriverOn(LogEntryDistance),
    DriverOff(LogEntryOff),
    WarningOn(LogEntryDistance),
    WarningOff(LogEntryOff),
    AlarmOn(LogEntryDistance),
    AlarmOff(LogEntryOff),
    BatteryPlugged(LogEntryBattery),
    BatteryUnplugged(LogEntryBattery),
    BatteryCritical(LogEntryBattery),
    StateStart(LogEntryState),
    StateStop(LogEntryState),
}

/// The uGuard tag log file (file 201): how many entries remain on the tag,
/// and up to nine entries.
#[derive(Debug, Clone)]
pub struct TagLog {
    pub remaining: u16,
    pub entry_0: Option<TagLogAction>,
    pub entry_1: Option<TagLogAction>,
    pub entry_2: Option<TagLogAction>,
    pub entry_3: Option<TagLogAction>,
    pub entry_4: Option<TagLogAction>,
    pub entry_5: Option<TagLogAction>,
    pub entry_6: Option<TagLogAction>,
    pub entry_7: Option<TagLogAction>,
    pub entry_8: Option<TagLogAction>,
}

impl TagLog {
    /// The file number.
    pub fn fid() -> (r: u8)
        ensures
            r == 201,
    {
        201
    }

    /// The file name.
    pub fn name() -> (r: &'static str)
        ensures
            r@ == "uguard_tag_log"@,
    {
        "uguard_tag_log"
    }
}

/// The little-endian 16-bit number at byte `i`.
pub open spec fn le_u16(b: Seq<u8>, i: int) -> int {
    b[i] + b[i + 1] * 0x100
}

/// The little-endian 32-bit number at byte `i`.
pub open spec fn le_u32(b: Seq<u8>, i: int) -> int {
    b[i] + b[i + 1] * 0x100 + b[i + 2] * 0x1_0000 + b[i + 3] * 0x100_0000
}

/// The numbers of an entry are little-endian: the lowest byte comes first
/// and the highest last, and every byte counts.
pub proof fn lemma_little_endian(b: Seq<u8>, i: int)
    requires
        0 <= i,
        i + 3 < b.len(),
    ensures
        le_u16(b, i) % 0x100 == b[i],
        le_u16(b, i) / 0x100 == b[i + 1],
        le_u32(b, i) % 0x100 == b[i],
        le_u32(b, i) / 0x100_0000 == b[i + 3],
        le_u32(b, i) % 0x1_0000 == le_u16(b, i),
        le_u32(b, i) / 0x1_0000 == le_u16(b, i + 2),
{
}

/// Reads the little-endian 16-bit number at byte `i`.
fn read_u16_le(b: &[u8; 20], i: usize) -> (r: u16)
    requires
        i + 1 < 20,
    ensures
        r as int == le_u16(b@, i as int),
{
    (b[i] as u16) + (b[i + 1] as u16) * 0x100
}

/// Reads the little-endian 32-bit number at byte `i`.
fn read_u32_le(b: &[u8; 20], i: usize) -> (r: u32)
    requires
        i + 3 < 20,
    ensures
        r as int == le_u32(b@, i as int),
{
    (b[i] as u32) + (b[i + 1] as u32) * 0x100 + (b[i + 2] as u32) * 0x1_0000 + (b[i + 3] as u32)
        * 0x100_0000
}

/// The error of an entry whose action byte is unknown, or of another kind
/// than `kind` accepts; `None` when the action is of that kind.
pub open spec fn action_error(b: Seq<u8>, kind: spec_fn(ActionEnum) -> bool) -> Option<
    (Seq<char>, u32),
> {
    match ActionEnum::spec_from_code(b[4]) {
        None => Some(("unknown action"@, b[4] as u32)),
        Some(a) => if kind(a) {
            None
        } else {
            Some(("unexpected action"@, b[4] as u32))
        },
    }
}

/// The error of an entry read with `kind`, or of its state byte.
pub open spec fn state_entry_error(b: Seq<u8>) -> Option<(Seq<char>, u32)> {
    match action_error(b, |a: ActionEnum| a.is_state()) {
        Some(e) => Some(e),
        None => if TagState::spec_from_code(b[5]) is None {
            Some(("unknown tag state"@, b[5] as u32))
        } else {
            None
        },
    }
}

/// How an entry's result stands to the error that its bytes call for.
pub open spec fn entry_result<T>(
    r: Result<T, XMLError>,
    err: Option<(Seq<char>, u32)>,
    ok: spec_fn(T) -> bool,
) -> bool {
    match r {
        Ok(e) => err is None && ok(e),
        Err(XMLError::ParseError((m, n))) => err == Some((m@, n)),
    }
}

/// `e` is the distance entry written in `b`.
pub open spec fn distance_entry(e: LogEntryDistance, b: Seq<u8>) -> bool {
    &&& e.ts == le_u32(b, 0)
    &&& e.controller_vid == le_u16(b, 5)
    &&& e.distance == b[7]
    &&& forall|k: int|
        0 <= k < 4 ==> #[trigger] e.tag@[k].vid == le_u16(b, 8 + 3 * k) && e.tag@[k].distance
            == b[10 + 3 * k]
}

/// `e` is the time-only entry written in `b`.
pub open spec fn off_entry(e: LogEntryOff, b: Seq<u8>) -> bool {
    e.ts == le_u32(b, 0)
}

/// `e` is the boot entry written in `b`.
pub open spec fn boot_entry(e: LogEntryBoot, b: Seq<u8>) -> bool {
    &&& e.ts == le_u32(b, 0)
    &&& e.reset_cause as u32 == b[5]
    &&& e.assert_count == le_u16(b, 6)
    &&& e.last_assert == le_u32(b, 8)
    &&& e.last_assert_arg == le_u32(b, 12)
}

/// `e` is the battery entry written in `b`.
pub open spec fn battery_entry(e: LogEntryBattery, b: Seq<u8>) -> bool {
    e.ts == le_u32(b, 0) && e.vbat == le_u16(b, 5)
}

/// `e` is the state entry written in `b`: a state byte, then eight flags,
/// each set when its byte is not zero.
pub open spec fn state_entry(e: LogEntryState, b: Seq<u8>) -> bool {
    &&& e.ts == le_u32(b, 0)
    &&& TagState::spec_from_code(b[5]) == Some(e.state)
    &&& e.active == (b[6] != 0)
    &&& e.cup == (b[7] != 0)
    &&& e.facedown == (b[8] != 0)
    &&& e.stable == (b[9] != 0)
    &&& e.configured == (b[10] != 0)
    &&& e.running == (b[11] != 0)
    &&& e.plugged == (b[12] != 0)
    &&& e.battery_critical == (b[13] != 0)
}

/// The error for an entry's action byte.
fn action_error_of(from: &[u8; 20], unexpected: bool) -> (r: XMLError)
    ensures
        match r {
            XMLError::ParseError((m, n)) => n == from@[4] as u32 && m@ == (if unexpected {
                "unexpected action"@
            } else {
                "unknown action"@
            }),
        },
{
    if unexpected {
        XMLError::ParseError(("unexpected action".to_owned(), from[4] as u32))
    } else {
        XMLError::ParseError(("unknown action".to_owned(), from[4] as u32))
    }
}

impl LogEntryDistance {
    /// Reads a driver, warning or alarm "on" entry.
    pub fn try_from(from: [u8; 20]) -> (r: Result<LogEntryDistance, XMLError>)
        ensures
            entry_result(
                r,
                action_error(from@, |a: ActionEnum| a.is_distance()),
                |e: LogEntryDistance| distance_entry(e, from@),
            ),
    {
        let action = match ActionEnum::from_code(from[4]) {
            Some(a) => a,
            None => return Err(action_error_of(&from, false)),
        };
        match action {
            ActionEnum::AlarmOn | ActionEnum::DriverOn | ActionEnum::WarningOn => {
                let ts = read_u32_le(&from, 0);
                let controller_vid = read_u16_le(&from, 5);
                let distance: u8 = from[7];
                let tag = [
                    LogEntryTag { vid: read_u16_le(&from, 8), distance: from[10] },
                    LogEntryTag { vid: read_u16_le(&from, 11), distance: from[13] },
                    LogEntryTag { vid: read_u16_le(&from, 14), distance: from[16] },
                    LogEntryTag { vid: read_u16_le(&from, 17), distance: from[19] },
                ];
                let e = LogEntryDistance { ts, controller_vid, distance, tag };
                assert(distance_entry(e, from@));
                Ok(e)
            },
            _ => Err(action_error_of(&from, true)),
        }
    }
}

impl LogEntryOff {
    /// Reads a driver, warning or alarm "off" entry.
    pub fn try_from(from: [u8; 20]) -> (r: Result<LogEntryOff, XMLError>)
        ensures
            entry_result(
                r,
                action_error(from@, |a: ActionEnum| a.is_off()),
                |e: LogEntryOff| off_entry(e, from@),
            ),
    {
        let action = match ActionEnum::from_code(from[4]) {
            Some(a) => a,
            None => return Err(action_error_of(&from, false)),
        };
        match action {
            ActionEnum::AlarmOff | ActionEnum::DriverOff | ActionEnum::WarningOff => {
                Ok(LogEntryOff { ts: read_u32_le(&from, 0) })
            },
            _ => Err(action_error_of(&from, true)),
        }
    }
}

impl LogEntryBoot {
    /// Reads a boot entry.
    pub fn try_from(from: [u8; 20]) -> (r: Result<LogEntryBoot, XMLError>)
        ensures
            entry_result(
                r,
                action_error(from@, |a: ActionEnum| a.is_boot()),
                |e: LogEntryBoot| boot_entry(e, from@),
            ),
    {
        let action = match ActionEnum::from_code(from[4]) {
            Some(a) => a,
            None => return Err(action_error_of(&from, false)),
        };
        match action {
            ActionEnum::Boot => {
                let ts = read_u32_le(&from, 0);
                let reset_cause = from[5] as char;
                let assert_count = read_u16_le(&from, 6);
                let last_assert = read_u32_le(&from, 8);
                let last_assert_arg = read_u32_le(&from, 12);
                Ok(LogEntryBoot { ts, reset_cause, assert_count, last_assert, last_assert_arg })
            },
            _ => Err(action_error_of(&from, true)),
        }
    }
}

impl LogEntryBattery {
    /// Reads a battery entry.
    pub fn try_from(from: [u8; 20]) -> (r: Result<LogEntryBattery, XMLError>)
        ensures
            entry_result(
                r,
                action_error(from@, |a: ActionEnum| a.is_battery()),
                |e: LogEntryBattery| battery_entry(e, from@),
            ),
    {
        let action = match ActionEnum::from_code(from[4]) {
            Some(a) => a,
            None => return Err(action_error_of(&from, false)),
        };
        match action {
            ActionEnum::BatteryPlugged | ActionEnum::BatteryUnplugged
            | ActionEnum::BatteryCritical => {
                Ok(LogEntryBattery { ts: read_u32_le(&from, 0), vbat: read_u16_le(&from, 5) })
            },
            _ => Err(action_error_of(&from, true)),
        }
    }
}

impl LogEntryState {
    /// Reads a state entry.
    pub fn try_from(from: [u8; 20]) -> (r: Result<LogEntryState, XMLError>)
        ensures
            entry_result(r, state_entry_error(from@), |e: LogEntryState| state_entry(e, from@)),
    {
        let action = match ActionEnum::from_code(from[4]) {
            Some(a) => a,
            None => return Err(action_error_of(&from, false)),
        };
        match action {
            ActionEnum::StateStop | ActionEnum::StateStart => {
                let ts = read_u32_le(&from, 0);
                let state = match TagState::from_code(from[5]) {
                    Some(s) => s,
                    None => return Err(
                        XMLError::ParseError(("unknown tag state".to_owned(), from[5] as u32)),
                    ),
                };
                Ok(LogEntryState {
                    ts,
                    state,
                    active: from[6] != 0u8,
                    cup: from[7] != 0u8,
                    facedown: from[8] != 0u8,
                    stable: from[9] != 0u8,
                    configured: from[10] != 0u8,
                    running: from[11] != 0u8,
                    plugged: from[12] != 0u8,
                    battery_critical: from[13] != 0u8,
                })
            },
            _ => Err(action_error_of(&from, true)),
        }
    }
}


/// The hexadecimal text of a tag log entry: the `hex` entry of an object.
pub open spec fn tag_log_hex(v: JsonValue) -> Option<Seq<char>> {
    match v {
        JsonValue::Object(entries) => match lookup(entries@, "hex"@) {
            Some(JsonValue::String(s)) => Some(s@),
            _ => None,
        },
        _ => None,
    }
}

/// Why a JSON value is no tag log entry, if it is not one.
pub open spec fn tag_log_action_error(v: JsonValue) -> Option<(Seq<char>, u32)> {
    match v {
        JsonValue::Object(entries) => match lookup(entries@, "hex"@) {
            None => Some(("no hex key"@, 0)),
            Some(JsonValue::String(s)) => if !(is_hex(s@) && s@.len() == 40) {
                Some(("bad hex"@, 0))
            } else if ActionEnum::spec_from_code(hex_decoded(s@)[4]) is None {
                Some(("unknown action"@, hex_decoded(s@)[4] as u32))
            } else {
                None
            },
            Some(_) => Some(("hex is not a string"@, 0)),
        },
        _ => Some(("not an object"@, 0)),
    }
}

/// `a` is the entry written in `b`, of the action that byte 4 names.
pub open spec fn action_entry(a: TagLogAction, b: Seq<u8>) -> bool {
    let action = ActionEnum::spec_from_code(b[4]);
    match a {
        TagLogAction::Boot(e) => action == Some(ActionEnum::Boot) && boot_entry(e, b),
        TagLogAction::DriverOn(e) => action == Some(ActionEnum::DriverOn) && distance_entry(e, b),
        TagLogAction::DriverOff(e) => action == Some(ActionEnum::DriverOff) && off_entry(e, b),
        TagLogAction::WarningOn(e) => action == Some(ActionEnum::WarningOn) && distance_entry(
            e,
            b,
        ),
        TagLogAction::WarningOff(e) => action == Some(ActionEnum::WarningOff) && off_entry(e, b),
        TagLogAction::AlarmOn(e) => action == Some(ActionEnum::AlarmOn) && distance_entry(e, b),
        TagLogAction::AlarmOff(e) => action == Some(ActionEnum::AlarmOff) && off_entry(e, b),
        TagLogAction::BatteryPlugged(e) => action == Some(ActionEnum::BatteryPlugged)
            && battery_entry(e, b),
        TagLogAction::BatteryUnplugged(e) => action == Some(ActionEnum::BatteryUnplugged)
            && battery_entry(e, b),
        TagLogAction::BatteryCritical(e) => action == Some(ActionEnum::BatteryCritical)
            && battery_entry(e, b),
        TagLogAction::StateStart(e) => action == Some(ActionEnum::StateStart) && state_entry(e, b),
        TagLogAction::StateStop(e) => action == Some(ActionEnum::StateStop) && state_entry(e, b),
    }
}

/// The kind of a read tag-log entry is the one its action byte registers:
/// 0 boot, 1 driver on, 2 driver off, 3 warning on, 4 warning off, 5 alarm
/// on, 6 alarm off, 7 battery plugged, 8 battery unplugged, 9 battery
/// critical, 10 state start, 11 state stop; and a state entry's state is
/// the one its state byte registers (0 good, 1 error, 2 stopped).
pub proof fn lemma_entry_kind_by_action_byte(a: TagLogAction, b: Seq<u8>)
    requires
        action_entry(a, b),
    ensures
        a is Boot <==> b[4] == 0,
        a is DriverOn <==> b[4] == 1,
        a is DriverOff <==> b[4] == 2,
        a is WarningOn <==> b[4] == 3,
        a is WarningOff <==> b[4] == 4,
        a is AlarmOn <==> b[4] == 5,
        a is AlarmOff <==> b[4] == 6,
        a is BatteryPlugged <==> b[4] == 7,
        a is BatteryUnplugged <==> b[4] == 8,
        a is BatteryCritical <==> b[4] == 9,
        a is StateStart <==> b[4] == 10,
        a is StateStop <==> b[4] == 11,
        a matches TagLogAction::StateStart(e) ==> (e.state is Good <==> b[5] == 0) && (e.state is Error
            <==> b[5] == 1) && (e.state is Stopped <==> b[5] == 2),
        a matches TagLogAction::StateStop(e) ==> (e.state is Good <==> b[5] == 0) && (e.state is Error
            <==> b[5] == 1) && (e.state is Stopped <==> b[5] == 2),
{
    let k = ActionEnum::spec_from_code(b[4]);
    assert(k is Some);
    ActionEnum::lemma_registered_codes(b[4], k.unwrap());
    match a {
        TagLogAction::StateStart(e) => {
            TagState::lemma_registered_codes(b[5], e.state);
        },
        TagLogAction::StateStop(e) => {
            TagState::lemma_registered_codes(b[5], e.state);
        },
        _ => {},
    }
}

/// The twenty bytes of a vector, as an entry buffer.
fn bytes20(v: &Vec<u8>) -> (r: [u8; 20])
    requires
        v@.len() == 20,
    ensures
        r@ == v@,
{
    let r = [
        v[0],
        v[1],
        v[2],
        v[3],
        v[4],
        v[5],
        v[6],
        v[7],
        v[8],
        v[9],
        v[10],
        v[11],
        v[12],
        v[13],
        v[14],
        v[15],
        v[16],
        v[17],
        v[18],
        v[19],
    ];
    assert(r@ =~= v@);
    r
}

/// Why twenty bytes are no tag log entry, if they are not one: the action
/// byte is unknown, or the entry is a state entry whose state byte is
/// unknown. Every other entry is read.
pub open spec fn entry_error(b: Seq<u8>) -> Option<(Seq<char>, u32)> {
    match ActionEnum::spec_from_code(b[4]) {
        None => Some(("unknown action"@, b[4] as u32)),
        Some(a) => if a.is_state() && TagState::spec_from_code(b[5]) is None {
            Some(("unknown tag state"@, b[5] as u32))
        } else {
            None
        },
    }
}

/// Reads the entry that twenty bytes hold, by the action in byte 4.
fn entry_from_bytes(raw: [u8; 20]) -> (r: Result<TagLogAction, XMLError>)
    ensures
        match r {
            Ok(a) => entry_error(raw@) is None && action_entry(a, raw@),
            Err(XMLError::ParseError((m, n))) => entry_error(raw@) == Some((m@, n)),
        },
{
        let action = match ActionEnum::from_code(raw[4]) {
            Some(a) => a,
            None => return Err(action_error_of(&raw, false)),
        };
        let r = match action {
            ActionEnum::Boot => match LogEntryBoot::try_from(raw) {
                Ok(e) => TagLogAction::Boot(e),
                Err(e) => return Err(e),
            },
            ActionEnum::DriverOn => match LogEntryDistance::try_from(raw) {
                Ok(e) => TagLogAction::DriverOn(e),
                Err(e) => return Err(e),
            },
            ActionEnum::DriverOff => match LogEntryOff::try_from(raw) {
                Ok(e) => TagLogAction::DriverOff(e),
                Err(e) => return Err(e),
            },
            ActionEnum::WarningOn => match LogEntryDistance::try_from(raw) {
                Ok(e) => TagLogAction::WarningOn(e),
                Err(e) => return Err(e),
            },
            ActionEnum::WarningOff => match LogEntryOff::try_from(raw) {
                Ok(e) => TagLogAction::WarningOff(e),
                Err(e) => return Err(e),
            },
            ActionEnum::AlarmOn => match LogEntryDistance::try_from(raw) {
                Ok(e) => TagLogAction::AlarmOn(e),
                Err(e) => return Err(e),
            },
            ActionEnum::AlarmOff => match LogEntryOff::try_from(raw) {
                Ok(e) => TagLogAction::AlarmOff(e),
                Err(e) => return Err(e),
            },
            ActionEnum::BatteryPlugged => match LogEntryBattery::try_from(raw) {
                Ok(e) => TagLogAction::BatteryPlugged(e),
                Err(e) => return Err(e),
            },
            ActionEnum::BatteryUnplugged => match LogEntryBattery::try_from(raw) {
                Ok(e) => TagLogAction::BatteryUnplugged(e),
                Err(e) => return Err(e),
            },
            ActionEnum::BatteryCritical => match LogEntryBattery::try_from(raw) {
                Ok(e) => TagLogAction::BatteryCritical(e),
                Err(e) => return Err(e),
            },
            ActionEnum::StateStart => match LogEntryState::try_from(raw) {
                Ok(e) => TagLogAction::StateStart(e),
                Err(e) => return Err(e),
            },
            ActionEnum::StateStop => match LogEntryState::try_from(raw) {
                Ok(e) => TagLogAction::StateStop(e),
                Err(e) => return Err(e),
            },
        };
        Ok(r)
}

impl TagLogAction {
    /// Reads a tag log entry from its JSON rendering: an object whose `hex`
    /// entry holds the twenty bytes of the entry. A state entry whose state
    /// byte is unknown is refused as well (see [`LogEntryState::try_from`]).
    pub fn try_from(from: JsonValue) -> (r: Result<TagLogAction, XMLError>)
        ensures
            match r {
                Ok(a) => tag_log_action_error(from) is None && (tag_log_hex(from) matches Some(s)
                    && entry_error(hex_decoded(s)) is None && action_entry(a, hex_decoded(s))),
                Err(XMLError::ParseError((m, n))) => match tag_log_action_error(from) {
                    Some(e) => e == (m@, n),
                    None => (tag_log_hex(from) matches Some(s) && entry_error(hex_decoded(s))
                        == Some((m@, n))),
                },
            },
    {
        match &from {
            JsonValue::Object(o) => {
                let mut bytes: Vec<u8> = vec![0u8; 20];
                let s = match object_get(o, "hex") {
                    Some(s) => s,
                    None => return Err(XMLError::ParseError(("no hex key".to_owned(), 0))),
                };
                let s = match s.as_str() {
                    Some(s) => s,
                    None => return Err(
                        XMLError::ParseError(("hex is not a string".to_owned(), 0)),
                    ),
                };
                match hex_decode_to_slice(s, &mut bytes) {
                    Ok(()) => {},
                    Err(_) => return Err(XMLError::ParseError(("bad hex".to_owned(), 0))),
                }
                let raw = bytes20(&bytes);
                assert(raw@ == hex_decoded(s@));
                entry_from_bytes(raw)
            },
            _ => Err(XMLError::ParseError(("not an object".to_owned(), 0))),
        }
    }
}

} // verus!

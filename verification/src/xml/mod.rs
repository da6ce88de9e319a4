//! Models of the device files that the service reports, and the rules that
//! read their JSON renderings.
pub mod apps;
pub mod d7b;
pub mod modem;

use vstd::prelude::*;
use crate::hex_text::{hex_decode, hex_decode_to_slice, hex_decoded, is_hex};
use crate::json::{lookup, object_get, JsonValue};
use crate::common::{be_u64, u64_from_be};
use crate::text::{decimal, push_char, push_decimal, push_str};

verus! {

/// `char::from_u32`.
///
/// Trusted: as the standard library documents, the result is the character
/// with that code exactly when the code is a Unicode scalar value (at most
/// `0x10FFFF` and outside the surrogate range `0xD800..=0xDFFF`).
#[verifier::external_body]
pub(crate) fn char_from_u32(n: u32) -> (r: Option<char>)
    ensures
        r is Some <==> (n <= 0xD7FF || (0xE000 <= n && n <= 0x10FFFF)),
        r matches Some(c) ==> c as u32 == n,
{
    char::from_u32(n)
}

/// What `de_boolean` reads from a JSON value: a boolean as it is, a number
/// as "not zero", anything else is refused.
pub open spec fn boolean_spec(v: JsonValue) -> Result<bool, Seq<char>> {
    match v {
        JsonValue::Bool(b) => Ok(b),
        JsonValue::Number(n) => match n.spec_as_i64() {
            Some(i) => Ok(i != 0),
            None => Err("Invalid number"@),
        },
        _ => Err("Wrong type, expected boolean"@),
    }
}

/// Reads a flag that the device files write either as a boolean or as a
/// number. The error is the message a deserializer reports.
pub fn de_boolean(v: &JsonValue) -> (r: Result<bool, String>)
    ensures
        match r {
            Ok(b) => boolean_spec(*v) == Ok::<bool, Seq<char>>(b),
            Err(m) => boolean_spec(*v) == Err::<bool, Seq<char>>(m@),
        },
{
    match v {
        JsonValue::Bool(b) => Ok(*b),
        JsonValue::Number(n) => match n.as_i64() {
            Some(i) => Ok(i != 0),
            None => Err("Invalid number".to_owned()),
        },
        _ => Err("Wrong type, expected boolean".to_owned()),
    }
}

/// The character code that `de_character` reads from a JSON value: a
/// number is the code (its low 32 bits), an object carries the character as
/// the first byte of its `hex` entry.
pub open spec fn character_spec(v: JsonValue) -> Result<u32, Seq<char>> {
    match v {
        JsonValue::Number(n) => match n.spec_as_u64() {
            None => Err("Invalid number"@),
            Some(u) => {
                let c = u as u32;
                if c <= 0xD7FF || (0xE000 <= c && c <= 0x10FFFF) {
                    Ok(c)
                } else {
                    Err("Invalid character"@)
                }
            },
        },
        JsonValue::Object(entries) => match lookup(entries@, "hex"@) {
            None => Err("No hex key"@),
            Some(JsonValue::String(s)) => if !is_hex(s@) {
                Err("Failed to decode hex"@)
            } else if s@.len() == 0 {
                Err("Empty"@)
            } else {
                Ok(hex_decoded(s@)[0] as u32)
            },
            Some(_) => Err("Failed converting to slice"@),
        },
        _ => Err("Wrong type, expected char"@),
    }
}

/// Reads a character that the device files write either as its code or as
/// a hexadecimal byte.
pub fn de_character(v: &JsonValue) -> (r: Result<char, String>)
    ensures
        match r {
            Ok(c) => character_spec(*v) == Ok::<u32, Seq<char>>(c as u32),
            Err(m) => character_spec(*v) == Err::<u32, Seq<char>>(m@),
        },
{
    match v {
        JsonValue::Number(n) => {
            let n = match n.as_u64() {
                Some(n) => n,
                None => return Err("Invalid number".to_owned()),
            };
            match char_from_u32(n as u32) {
                Some(c) => Ok(c),
                None => Err("Invalid character".to_owned()),
            }
        },
        JsonValue::Object(entries) => {
            let s = match object_get(entries, "hex") {
                Some(s) => s,
                None => return Err("No hex key".to_owned()),
            };
            let s = match s.as_str() {
                Some(s) => s,
                None => return Err("Failed converting to slice".to_owned()),
            };
            let s = match hex_decode(s) {
                Ok(d) => d,
                Err(_) => return Err("Failed to decode hex".to_owned()),
            };
            if s.len() == 0 {
                return Err("Empty".to_owned());
            }
            let b = s[0];
            match char_from_u32(b as u32) {
                Some(c) => Ok(c),
                None => Err("Invalid character".to_owned()),
            }
        },
        _ => Err("Wrong type, expected char".to_owned()),
    }
}

/// What `de_string_u64` reads from a JSON value: an object whose `utf8`
/// entry is sixteen hexadecimal digits, read as a big-endian number.
pub open spec fn string_u64_spec(v: JsonValue) -> Result<u64, Seq<char>> {
    match v {
        JsonValue::Object(entries) => match lookup(entries@, "utf8"@) {
            None => Err("No utf8 key"@),
            Some(JsonValue::String(s)) => if is_hex(s@) && s@.len() == 16 {
                Ok(be_u64(hex_decoded(s@)) as u64)
            } else {
                Err("Failed to decode hex"@)
            },
            Some(_) => Err("Failed converting to slice"@),
        },
        _ => Err("Wrong type, expected string"@),
    }
}

/// Reads a 64-bit number that the device files write as the hexadecimal
/// text of its eight big-endian bytes.
pub fn de_string_u64(v: &JsonValue) -> (r: Result<u64, String>)
    ensures
        match r {
            Ok(u) => string_u64_spec(*v) == Ok::<u64, Seq<char>>(u),
            Err(m) => string_u64_spec(*v) == Err::<u64, Seq<char>>(m@),
        },
{
    match v {
        JsonValue::Object(entries) => {
            let mut raw: Vec<u8> = vec![0u8; 8];
            let s = match object_get(entries, "utf8") {
                Some(s) => s,
                None => return Err("No utf8 key".to_owned()),
            };
            let s = match s.as_str() {
                Some(s) => s,
                None => return Err("Failed converting to slice".to_owned()),
            };
            match hex_decode_to_slice(s, &mut raw) {
                Ok(()) => {},
                Err(_) => return Err("Failed to decode hex".to_owned()),
            }
            Ok(u64_from_be(&raw))
        },
        _ => Err("Wrong type, expected string".to_owned()),
    }
}

/// A device file that could not be read: what failed, and a number that
/// locates it (the offending value where there is one).
#[derive(Debug)]
pub enum XMLError {
    ParseError((String, u32)),
}

impl Clone for XMLError {
    fn clone(&self) -> (r: Self)
        ensures
            r == *self,
    {
        match self {
            XMLError::ParseError((s, n)) => XMLError::ParseError((s.clone(), *n)),
        }
    }
}

impl XMLError {
    /// The error as text (`Display`): the two parts joined by a colon.
    pub fn to_string(&self) -> (r: String)
        ensures
            match self {
                XMLError::ParseError((s, n)) => r@ == s@ + seq![':'] + decimal(*n as nat),
            },
    {
        match self {
            XMLError::ParseError((s, n)) => {
                let mut out = String::new();
                push_str(&mut out, s.as_str());
                push_char(&mut out, ':');
                push_decimal(&mut out, *n as u64);
                out
            },
        }
    }
}

/// The device types whose files are modelled here, by 64-bit device type.
#[derive(Debug, Clone, Copy, PartialEq, Eq, Structural)]
pub enum DeviceType {
    UguardController,
    UguardPeripheral,
    UguardTag,
    UguardSpot,
}

impl DeviceType {
    /// The number that stands for each variant.
    pub open spec fn spec_code(self) -> u64 {
        match self {
            DeviceType::UguardController => 0x01BC50C7FF00001Fu64,
            DeviceType::UguardPeripheral => 0x01BC50C7FF000020u64,
            DeviceType::UguardTag => 0x01BC50C7FF000026u64,
            DeviceType::UguardSpot => 0x01BC50C7FF000028u64,
        }
    }

    /// The variant that a number stands for, if any.
    pub open spec fn spec_from_code(n: u64) -> Option<DeviceType> {
        match n {
            0x01BC50C7FF00001Fu64 => Some(DeviceType::UguardController),
            0x01BC50C7FF000020u64 => Some(DeviceType::UguardPeripheral),
            0x01BC50C7FF000026u64 => Some(DeviceType::UguardTag),
            0x01BC50C7FF000028u64 => Some(DeviceType::UguardSpot),
            _ => None,
        }
    }

    /// The number of the variant (`IntoPrimitive`).
    pub fn code(self) -> (r: u64)
        ensures
            r == self.spec_code(),
    {
        match self {
            DeviceType::UguardController => 0x01BC50C7FF00001F,
            DeviceType::UguardPeripheral => 0x01BC50C7FF000020,
            DeviceType::UguardTag => 0x01BC50C7FF000026,
            DeviceType::UguardSpot => 0x01BC50C7FF000028,
        }
    }

    /// The variant of a number (`TryFromPrimitive`); `None` for a number
    /// that stands for no variant.
    pub fn from_code(n: u64) -> (r: Option<DeviceType>)
        ensures
            r == Self::spec_from_code(n),
    {
        match n {
            0x01BC50C7FF00001F => Some(DeviceType::UguardController),
            0x01BC50C7FF000020 => Some(DeviceType::UguardPeripheral),
            0x01BC50C7FF000026 => Some(DeviceType::UguardTag),
            0x01BC50C7FF000028 => Some(DeviceType::UguardSpot),
            _ => None,
        }
    }

    /// Every variant is read back from its own number, and a number that
    /// reads as a variant is that variant's number.
    pub proof fn lemma_code_roundtrip(self, n: u64)
        ensures
            Self::spec_from_code(self.spec_code()) == Some(self),
            Self::spec_from_code(n) matches Some(e) ==> e.spec_code() == n,
    {
    }

    /// Each variant is read from the number registered for it and from no
    /// other: a number that reads as `e` is `e`'s registered number.
    pub proof fn lemma_registered_codes(n: u64, e: DeviceType)
        requires
            DeviceType::spec_from_code(n) == Some(e),
        ensures
            e is UguardController <==> n == 0x01BC50C7FF00001Fu64,
            e is UguardPeripheral <==> n == 0x01BC50C7FF000020u64,
            e is UguardTag <==> n == 0x01BC50C7FF000026u64,
            e is UguardSpot <==> n == 0x01BC50C7FF000028u64,
    {
    }
}

} // verus!

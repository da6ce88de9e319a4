//! Device identifiers, with DASH7 identifiers kept as their eight bytes.
use vstd::prelude::*;
use crate::common::vgw_prefix;
use crate::hex_text::{hex_decode, hex_decoded, hex_digit_value, hex_encode_upper, hex_encoded_upper, is_hex, upper_hex_digit};
use crate::text::{is_prefix_of, push_char, push_str, starts_with};

verus! {

/// A device identifier as the service writes it.
#[derive(Debug)]
pub enum Uid {
    /// A DASH7 device, by the eight bytes of its identifier.
    Dash7([u8; 8]),
    /// A virtual gateway, by the text after `VGW-`.
    Vgw(String),
    /// Any other identifier, kept as written.
    Unknown(String),
}

/// The mathematical value of a [`Uid`].
pub enum UidView {
    Dash7(Seq<u8>),
    Vgw(Seq<char>),
    Unknown(Seq<char>),
}

impl View for Uid {
    type V = UidView;

    open spec fn view(&self) -> UidView {
        match self {
            Uid::Dash7(b) => UidView::Dash7(b@),
            Uid::Vgw(s) => UidView::Vgw(s@),
            Uid::Unknown(s) => UidView::Unknown(s@),
        }
    }
}

impl Clone for Uid {
    fn clone(&self) -> (r: Self)
        ensures
            r@ == self@,
    {
        match self {
            Uid::Dash7(b) => Uid::Dash7(*b),
            Uid::Vgw(s) => Uid::Vgw(s.clone()),
            Uid::Unknown(s) => Uid::Unknown(s.clone()),
        }
    }
}

/// Why a text is not a DASH7 identifier.
#[derive(Debug, PartialEq, Eq, Clone, Copy)]
pub enum UidDash7DecodeError {
    /// Not an even number of hexadecimal digits.
    BadHex,
    /// Hexadecimal, but not eight bytes.
    BadSize,
}

/// What [`Uid::parse_dash7`] gives for a text: the eight bytes that sixteen
/// hexadecimal digits stand for.
pub open spec fn parse_dash7_spec(s: Seq<char>) -> Result<Seq<u8>, UidDash7DecodeError> {
    if !is_hex(s) {
        Err(UidDash7DecodeError::BadHex)
    } else if s.len() != 16 {
        Err(UidDash7DecodeError::BadSize)
    } else {
        Ok(hex_decoded(s))
    }
}

/// The identifier that a text names: a DASH7 identifier when it is sixteen
/// hexadecimal digits, a virtual gateway when it starts with `VGW-`, and
/// otherwise the text itself.
pub open spec fn uid_from_spec(s: Seq<char>) -> UidView {
    match parse_dash7_spec(s) {
        Ok(b) => UidView::Dash7(b),
        Err(_) => if is_prefix_of(vgw_prefix(), s) {
            UidView::Vgw(s.skip(4))
        } else {
            UidView::Unknown(s)
        },
    }
}

/// How an identifier is written (its `Display` form).
pub open spec fn uid_text(u: UidView) -> Seq<char> {
    match u {
        UidView::Dash7(b) => hex_encoded_upper(b),
        UidView::Vgw(s) => vgw_prefix() + s,
        UidView::Unknown(s) => s,
    }
}

/// How an identifier is shown for debugging.
pub open spec fn uid_debug_text(u: UidView) -> Seq<char> {
    match u {
        UidView::Dash7(b) => seq!['D', 'a', 's', 'h', '7', '('] + hex_encoded_upper(b) + seq![')'],
        UidView::Vgw(s) => seq!['V', 'g', 'w', '('] + s + seq![')'],
        UidView::Unknown(s) => seq!['U', 'n', 'k', 'n', 'o', 'w', 'n', '('] + s + seq![')'],
    }
}

/// The eight bytes of a vector, as an identifier.
fn bytes8(v: &Vec<u8>) -> (r: [u8; 8])
    requires
        v@.len() == 8,
    ensures
        r@ == v@,
{
    let r = [v[0], v[1], v[2], v[3], v[4], v[5], v[6], v[7]];
    assert(r@ =~= v@);
    r
}

impl Uid {
    /// Decodes a DASH7 identifier written as sixteen hexadecimal digits.
    pub fn parse_dash7(s: &str) -> (r: Result<[u8; 8], UidDash7DecodeError>)
        ensures
            match r {
                Ok(b) => parse_dash7_spec(s@) == Ok::<Seq<u8>, UidDash7DecodeError>(b@),
                Err(e) => parse_dash7_spec(s@) == Err::<Seq<u8>, UidDash7DecodeError>(e),
            },
    {
        let data = match hex_decode(s) {
            Ok(d) => d,
            Err(_) => return Err(UidDash7DecodeError::BadHex),
        };
        if data.len() != 8 {
            return Err(UidDash7DecodeError::BadSize);
        }
        Ok(bytes8(&data))
    }

    /// The identifier that a text names (`From<String>`).
    pub fn from(uid: String) -> (r: Uid)
        ensures
            r@ == uid_from_spec(uid@),
    {
        match Self::parse_dash7(uid.as_str()) {
            Ok(b) => Uid::Dash7(b),
            Err(_) => {
                proof {
                    reveal_strlit("VGW-");
                    assert("VGW-"@ =~= vgw_prefix());
                }
                if starts_with(uid.as_str(), "VGW-") {
                    let n = uid.as_str().unicode_len();
                    let rest = uid.as_str().substring_char(4, n).to_owned();
                    assert(rest@ =~= uid@.skip(4));
                    Uid::Vgw(rest)
                } else {
                    Uid::Unknown(uid)
                }
            },
        }
    }

    /// A DASH7 identifier from its bytes (`From<[u8; 8]>`).
    pub fn from_dash7(uid: [u8; 8]) -> (r: Uid)
        ensures
            r@ == UidView::Dash7(uid@),
    {
        Uid::Dash7(uid)
    }

    /// The bytes of a DASH7 identifier (`TryFrom<Uid> for [u8; 8]`); any
    /// other identifier is refused.
    pub fn into_dash7(self) -> (r: Result<[u8; 8], ()>)
        ensures
            match self {
                Uid::Dash7(b) => r == Ok::<[u8; 8], ()>(b),
                _ => r is Err,
            },
    {
        match self {
            Uid::Dash7(b) => Ok(b),
            _ => Err(()),
        }
    }

    /// How the identifier is written (`Display`): DASH7 identifiers as
    /// sixteen upper-case hexadecimal digits, virtual gateways with their
    /// `VGW-` prefix, others as they are.
    pub fn to_string(&self) -> (r: String)
        ensures
            r@ == uid_text(self@),
    {
        match self {
            Uid::Dash7(b) => hex_encode_upper(b.as_slice()),
            Uid::Vgw(v) => {
                let mut s = String::new();
                push_str(&mut s, "VGW-");
                push_str(&mut s, v.as_str());
                proof {
                    reveal_strlit("VGW-");
                }
                assert(s@ =~= vgw_prefix() + v@);
                s
            },
            Uid::Unknown(v) => v.clone(),
        }
    }

    /// How the identifier is shown for debugging (`Debug`).
    pub fn to_debug_string(&self) -> (r: String)
        ensures
            r@ == uid_debug_text(self@),
    {
        let mut s = String::new();
        match self {
            Uid::Dash7(b) => {
                push_str(&mut s, "Dash7(");
                let h = hex_encode_upper(b.as_slice());
                push_str(&mut s, h.as_str());
            },
            Uid::Vgw(v) => {
                push_str(&mut s, "Vgw(");
                push_str(&mut s, v.as_str());
            },
            Uid::Unknown(v) => {
                push_str(&mut s, "Unknown(");
                push_str(&mut s, v.as_str());
            },
        }
        push_char(&mut s, ')');
        proof {
            reveal_strlit("Dash7(");
            reveal_strlit("Vgw(");
            reveal_strlit("Unknown(");
        }
        assert(s@ =~= uid_debug_text(self@));
        s
    }

    /// Identifier equality (`PartialEq`): same kind and same content.
    pub fn eq(&self, other: &Uid) -> (r: bool)
        ensures
            r == (self@ == other@),
    {
        match (self, other) {
            (Uid::Dash7(a), Uid::Dash7(b)) => {
                let mut i: usize = 0;
                while i < 8
                    invariant
                        i <= 8,
                        self@ == UidView::Dash7(a@),
                        other@ == UidView::Dash7(b@),
                        forall|j: int| 0 <= j < i ==> a@[j] == b@[j],
                    decreases 8 - i,
                {
                    if a[i] != b[i] {
                        assert(a@[i as int] != b@[i as int]);
                        return false;
                    }
                    i = i + 1;
                }
                assert(a@ =~= b@);
                true
            },
            (Uid::Vgw(a), Uid::Vgw(b)) => *a == *b,
            (Uid::Unknown(a), Uid::Unknown(b)) => *a == *b,
            _ => false,
        }
    }
}

/// The digit of `upper_hex_digit(n)` reads back as `n`.
proof fn lemma_upper_hex_digit_value(n: u8)
    requires
        n < 16,
    ensures
        hex_digit_value(upper_hex_digit(n)) == Some(n),
{
}

/// Upper-case hexadecimal text decodes to the bytes it was made from.
pub proof fn lemma_hex_encode_decode(b: Seq<u8>)
    ensures
        is_hex(hex_encoded_upper(b)),
        hex_decoded(hex_encoded_upper(b)) == b,
{
    let t = hex_encoded_upper(b);
    assert forall|i: int| 0 <= i < t.len() implies (#[trigger] hex_digit_value(t[i])) is Some by {
        if i % 2 == 0 {
            lemma_upper_hex_digit_value(b[i / 2] / 16);
        } else {
            lemma_upper_hex_digit_value(b[i / 2] % 16);
        }
    }
    assert forall|k: int| 0 <= k < b.len() implies #[trigger] hex_decoded(t)[k] == b[k] by {
        lemma_upper_hex_digit_value(b[k] / 16);
        lemma_upper_hex_digit_value(b[k] % 16);
        assert((2 * k) / 2 == k);
        assert((2 * k + 1) / 2 == k);
        assert(t[2 * k] == upper_hex_digit(b[k] / 16));
        assert(t[2 * k + 1] == upper_hex_digit(b[k] % 16));
    }
    assert(hex_decoded(t) =~= b);
}

/// A text made of `VGW-` and a rest names the virtual gateway of that
/// rest, and that gateway is written back as the same text.
pub proof fn lemma_vgw_text(rest: Seq<char>)
    ensures
        uid_from_spec(seq!['V', 'G', 'W', '-'] + rest) == UidView::Vgw(rest),
        uid_text(UidView::Vgw(rest)) == seq!['V', 'G', 'W', '-'] + rest,
{
    let t = seq!['V', 'G', 'W', '-'] + rest;
    assert(hex_digit_value(t[0]) is None);
    assert(!is_hex(t));
    assert(t.subrange(0, 4) =~= vgw_prefix());
    assert(t.skip(4) =~= rest);
}

/// Writing an identifier and reading the text back gives the identifier
/// again, for every DASH7 identifier and virtual gateway, and for every
/// other identifier whose text reads as neither of those.
pub proof fn lemma_uid_text_roundtrip(u: UidView)
    requires
        u matches UidView::Dash7(b) ==> b.len() == 8,
        u matches UidView::Unknown(s) ==> parse_dash7_spec(s) is Err && !is_prefix_of(
            vgw_prefix(),
            s,
        ),
    ensures
        uid_from_spec(uid_text(u)) == u,
{
    match u {
        UidView::Dash7(b) => {
            lemma_hex_encode_decode(b);
        },
        UidView::Vgw(s) => {
            let t = vgw_prefix() + s;
            assert(hex_digit_value(t[0]) is None);
            assert(!is_hex(t));
            assert(t.subrange(0, 4) =~= vgw_prefix());
            assert(t.skip(4) =~= s);
        },
        UidView::Unknown(s) => {},
    }
}

} // verus!

//! Device identifiers and user permissions shared by the codecs.
use vstd::prelude::*;
use crate::hex_text::{hex_decode, hex_decoded, hex_digit_value, is_hex, upper_hex_digit};
use crate::text::{is_prefix_of, push_char, push_str, starts_with};

verus! {

/// The big-endian value of eight bytes.
pub open spec fn be_u64(b: Seq<u8>) -> int {
    b[0] * 0x100_0000_0000_0000 + b[1] * 0x1_0000_0000_0000 + b[2] * 0x100_0000_0000
        + b[3] * 0x1_0000_0000 + b[4] * 0x100_0000 + b[5] * 0x1_0000 + b[6] * 0x100 + b[7]
}

/// Big-endian reading of the first eight bytes of `b`.
pub fn u64_from_be(b: &Vec<u8>) -> (r: u64)
    requires
        b@.len() == 8,
    ensures
        r as int == be_u64(b@),
{
    (b[0] as u64) * 0x100_0000_0000_0000 + (b[1] as u64) * 0x1_0000_0000_0000 + (b[2] as u64)
        * 0x100_0000_0000 + (b[3] as u64) * 0x1_0000_0000 + (b[4] as u64) * 0x100_0000 + (b[5]
        as u64) * 0x1_0000 + (b[6] as u64) * 0x100 + (b[7] as u64)
}

/// The four characters `VGW-` that open a virtual gateway identifier.
pub open spec fn vgw_prefix() -> Seq<char> {
    seq!['V', 'G', 'W', '-']
}

/// The nibble of `u` at digit position `i` (0 is the most significant).
pub open spec fn u64_nibble(u: u64, i: int) -> u8 {
    ((u >> ((60 - 4 * i) as u64)) & 0xf) as u8
}

/// `{:016X}`: sixteen upper-case hexadecimal digits, most significant first.
pub open spec fn u64_hex_upper(u: u64) -> Seq<char> {
    Seq::new(16, |i: int| upper_hex_digit(u64_nibble(u, i)))
}

/// The upper-case digit of a value below 16.
pub fn upper_hex_char(n: u8) -> (c: char)
    requires
        n < 16,
    ensures
        c == upper_hex_digit(n),
{
    if n < 10 {
        (n + 48) as char
    } else {
        (n + 55) as char
    }
}

/// Writes `u` as sixteen upper-case hexadecimal digits onto `s`.
pub fn push_u64_hex_upper(s: &mut String, u: u64)
    ensures
        final(s)@ == old(s)@ + u64_hex_upper(u),
{
    let ghost start = s@;
    let mut i: usize = 0;
    while i < 16
        invariant
            i <= 16,
            s@ == start + u64_hex_upper(u).take(i as int),
        decreases 16 - i,
    {
        let shift: u64 = 60 - 4 * (i as u64);
        let nib: u8 = ((u >> shift) & 0xf) as u8;
        assert(((u >> shift) & 0xf) < 16) by (bit_vector);
        push_char(s, upper_hex_char(nib));
        assert(s@ =~= start + u64_hex_upper(u).take(i + 1));
        i = i + 1;
    }
    assert(u64_hex_upper(u).take(16) =~= u64_hex_upper(u));
}

/// A device identifier as the service writes it.
#[derive(Debug)]
pub enum Uid {
    /// A DASH7 device, by its 64-bit identifier.
    Dash7(u64),
    /// A virtual gateway, by the text after `VGW-`.
    Vgw(String),
    /// Any other identifier, kept as written.
    Unknown(String),
}

impl Clone for Uid {
    fn clone(&self) -> (r: Self)
        ensures
            r@ == self@,
    {
        match self {
            Uid::Dash7(u) => Uid::Dash7(*u),
            Uid::Vgw(s) => Uid::Vgw(s.clone()),
            Uid::Unknown(s) => Uid::Unknown(s.clone()),
        }
    }
}

/// The mathematical value of a [`Uid`].
pub enum UidView {
    Dash7(u64),
    Vgw(Seq<char>),
    Unknown(Seq<char>),
}

impl View for Uid {
    type V = UidView;

    open spec fn view(&self) -> UidView {
        match self {
            Uid::Dash7(u) => UidView::Dash7(*u),
            Uid::Vgw(s) => UidView::Vgw(s@),
            Uid::Unknown(s) => UidView::Unknown(s@),
        }
    }
}

/// Why a text is not a DASH7 identifier.
#[derive(Debug, PartialEq, Eq, Clone, Copy)]
pub enum UidDash7DecodeError {
    /// Not an even number of hexadecimal digits.
    BadHex,
    /// Hexadecimal, but not eight bytes.
    BadSize,
}

/// What [`Uid::parse_dash7`] gives for a text.
pub open spec fn parse_dash7_spec(s: Seq<char>) -> Result<u64, UidDash7DecodeError> {
    if !is_hex(s) {
        Err(UidDash7DecodeError::BadHex)
    } else if s.len() != 16 {
        Err(UidDash7DecodeError::BadSize)
    } else {
        Ok(be_u64(hex_decoded(s)) as u64)
    }
}

/// The identifier that a text names: a DASH7 identifier when it is sixteen
/// hexadecimal digits, a virtual gateway when it starts with `VGW-`, and
/// otherwise the text itself.
pub open spec fn uid_from_spec(s: Seq<char>) -> UidView {
    match parse_dash7_spec(s) {
        Ok(u) => UidView::Dash7(u),
        Err(_) => if is_prefix_of(vgw_prefix(), s) {
            UidView::Vgw(s.skip(4))
        } else {
            UidView::Unknown(s)
        },
    }
}

/// How an identifier is written (its `Display` form).
pub open spec fn uid_text(u: UidView) -> Seq<char> {
    match u {
        UidView::Dash7(n) => u64_hex_upper(n),
        UidView::Vgw(s) => vgw_prefix() + s,
        UidView::Unknown(s) => s,
    }
}

/// How an identifier is shown for debugging.
pub open spec fn uid_debug_text(u: UidView) -> Seq<char> {
    match u {
        UidView::Dash7(n) => seq!['D', 'a', 's', 'h', '7', '('] + u64_hex_upper(n) + seq![')'],
        UidView::Vgw(s) => seq!['V', 'g', 'w', '('] + s + seq![')'],
        UidView::Unknown(s) => seq!['U', 'n', 'k', 'n', 'o', 'w', 'n', '('] + s + seq![')'],
    }
}

impl Uid {
    /// Decodes a DASH7 identifier written as sixteen hexadecimal digits,
    /// most significant byte first.
    pub fn parse_dash7(s: &str) -> (r: Result<u64, UidDash7DecodeError>)
        ensures
            r == parse_dash7_spec(s@),
    {
        let data = match hex_decode(s) {
            Ok(d) => d,
            Err(_) => return Err(UidDash7DecodeError::BadHex),
        };
        if data.len() != 8 {
            return Err(UidDash7DecodeError::BadSize);
        }
        Ok(u64_from_be(&data))
    }

    /// The identifier that a text names (`From<String>`).
    pub fn from(uid: String) -> (r: Uid)
        ensures
            r@ == uid_from_spec(uid@),
    {
        match Self::parse_dash7(uid.as_str()) {
            Ok(u) => Uid::Dash7(u),
            Err(_) => {
                proof {
                    reveal_strlit("VGW-");
                    assert("VGW-"@ =~= vgw_prefix());
                }
                if starts_with(uid.as_str(), "VGW-") {
                    let n = uid.as_str().unicode_len();
                    let rest = uid.as_str().substring_char(4, n).to_owned();
                    assert(rest@ =~= uid@.skip(4));
                    Uid::Vgw(rest)
                } else {
                    Uid::Unknown(uid)
                }
            },
        }
    }

    /// How the identifier is written (`Display`): DASH7 identifiers as
    /// sixteen upper-case hexadecimal digits, virtual gateways with their
    /// `VGW-` prefix, others as they are.
    pub fn to_string(&self) -> (r: String)
        ensures
            r@ == uid_text(self@),
    {
        match self {
            Uid::Dash7(u) => {
                let mut s = String::new();
                push_u64_hex_upper(&mut s, *u);
                assert(s@ =~= u64_hex_upper(*u));
                s
            },
            Uid::Vgw(v) => {
                let mut s = String::new();
                push_char(&mut s, 'V');
                push_char(&mut s, 'G');
                push_char(&mut s, 'W');
                push_char(&mut s, '-');
                push_str(&mut s, v.as_str());
                assert(s@ =~= vgw_prefix() + v@);
                s
            },
            Uid::Unknown(v) => v.clone(),
        }
    }

    /// How the identifier is shown for debugging (`Debug`).
    pub fn to_debug_string(&self) -> (r: String)
        ensures
            r@ == uid_debug_text(self@),
    {
        let mut s = String::new();
        match self {
            Uid::Dash7(u) => {
                push_str(&mut s, "Dash7(");
                push_u64_hex_upper(&mut s, *u);
            },
            Uid::Vgw(v) => {
                push_str(&mut s, "Vgw(");
                push_str(&mut s, v.as_str());
            },
            Uid::Unknown(v) => {
                push_str(&mut s, "Unknown(");
                push_str(&mut s, v.as_str());
            },
        }
        push_char(&mut s, ')');
        proof {
            reveal_strlit("Dash7(");
            reveal_strlit("Vgw(");
            reveal_strlit("Unknown(");
        }
        assert(s@ =~= uid_debug_text(self@));
        s
    }

    /// Identifier equality (`PartialEq`): same kind and same content.
    pub fn eq(&self, other: &Uid) -> (r: bool)
        ensures
            r == (self@ == other@),
    {
        match (self, other) {
            (Uid::Dash7(a), Uid::Dash7(b)) => *a == *b,
            (Uid::Vgw(a), Uid::Vgw(b)) => *a == *b,
            (Uid::Unknown(a), Uid::Unknown(b)) => *a == *b,
            _ => false,
        }
    }
}


/// The digit of `upper_hex_digit(n)` reads back as `n`.
proof fn lemma_upper_hex_digit_value(n: u8)
    requires
        n < 16,
    ensures
        hex_digit_value(upper_hex_digit(n)) == Some(n),
{
}

/// Sixteen nibbles, most significant first, rebuild the number.
proof fn lemma_nibbles_rebuild(n: u64)
    ensures
        n as int == ((n >> 60u64) & 0xf) * 0x1000_0000_0000_0000 + ((n >> 56u64) & 0xf)
            * 0x100_0000_0000_0000 + ((n >> 52u64) & 0xf) * 0x10_0000_0000_0000 + ((n >> 48u64)
            & 0xf) * 0x1_0000_0000_0000 + ((n >> 44u64) & 0xf) * 0x1000_0000_0000 + ((n >> 40u64)
            & 0xf) * 0x100_0000_0000 + ((n >> 36u64) & 0xf) * 0x10_0000_0000 + ((n >> 32u64)
            & 0xf) * 0x1_0000_0000 + ((n >> 28u64) & 0xf) * 0x1000_0000 + ((n >> 24u64) & 0xf)
            * 0x100_0000 + ((n >> 20u64) & 0xf) * 0x10_0000 + ((n >> 16u64) & 0xf) * 0x1_0000
            + ((n >> 12u64) & 0xf) * 0x1000 + ((n >> 8u64) & 0xf) * 0x100 + ((n >> 4u64) & 0xf)
            * 0x10 + ((n >> 0u64) & 0xf),
{
    assert(n == ((n >> 60u64) & 0xf) * 0x1000_0000_0000_0000 + ((n >> 56u64) & 0xf)
        * 0x100_0000_0000_0000 + ((n >> 52u64) & 0xf) * 0x10_0000_0000_0000 + ((n >> 48u64)
        & 0xf) * 0x1_0000_0000_0000 + ((n >> 44u64) & 0xf) * 0x1000_0000_0000 + ((n >> 40u64)
        & 0xf) * 0x100_0000_0000 + ((n >> 36u64) & 0xf) * 0x10_0000_0000 + ((n >> 32u64) & 0xf)
        * 0x1_0000_0000 + ((n >> 28u64) & 0xf) * 0x1000_0000 + ((n >> 24u64) & 0xf) * 0x100_0000
        + ((n >> 20u64) & 0xf) * 0x10_0000 + ((n >> 16u64) & 0xf) * 0x1_0000 + ((n >> 12u64)
        & 0xf) * 0x1000 + ((n >> 8u64) & 0xf) * 0x100 + ((n >> 4u64) & 0xf) * 0x10 + ((n >> 0u64) & 0xf))
        by (bit_vector);
}

/// A nibble is below 16 and equals the masked shift it is made of.
proof fn lemma_nibble(n: u64, i: int)
    requires
        0 <= i < 16,
    ensures
        u64_nibble(n, i) < 16,
        u64_nibble(n, i) as int == (n >> ((60 - 4 * i) as u64)) & 0xf,
{
    let sh = (60 - 4 * i) as u64;
    assert(((n >> sh) & 0xf) < 16) by (bit_vector);
}

/// The bytes that sixteen upper-case digits of `n` decode to.
proof fn lemma_u64_hex_upper_bytes(n: u64)
    ensures
        is_hex(u64_hex_upper(n)),
        u64_hex_upper(n).len() == 16,
        forall|k: int|
            0 <= k < 8 ==> #[trigger] hex_decoded(u64_hex_upper(n))[k] == u64_nibble(n, 2 * k)
                * 16 + u64_nibble(n, 2 * k + 1),
{
    let t = u64_hex_upper(n);
    assert forall|i: int| 0 <= i < 16 implies hex_digit_value(#[trigger] t[i]) == Some(
        u64_nibble(n, i),
    ) by {
        lemma_nibble(n, i);
        lemma_upper_hex_digit_value(u64_nibble(n, i));
    }
    assert(is_hex(t));
    assert forall|k: int| 0 <= k < 8 implies #[trigger] hex_decoded(t)[k] == u64_nibble(n, 2 * k)
        * 16 + u64_nibble(n, 2 * k + 1) by {
        assert(hex_digit_value(t[2 * k]) == Some(u64_nibble(n, 2 * k)));
        assert(hex_digit_value(t[2 * k + 1]) == Some(u64_nibble(n, 2 * k + 1)));
        lemma_nibble(n, 2 * k);
        lemma_nibble(n, 2 * k + 1);
    }
}

/// Sixteen upper-case digits of `n` are a DASH7 identifier that decodes to `n`.
pub proof fn lemma_u64_hex_upper_parses(n: u64)
    ensures
        parse_dash7_spec(u64_hex_upper(n)) == Ok::<u64, UidDash7DecodeError>(n),
{
    let d = hex_decoded(u64_hex_upper(n));
    lemma_u64_hex_upper_bytes(n);
    assert(d[0] == u64_nibble(n, 0) * 16 + u64_nibble(n, 1));
    assert(d[1] == u64_nibble(n, 2) * 16 + u64_nibble(n, 3));
    assert(d[2] == u64_nibble(n, 4) * 16 + u64_nibble(n, 5));
    assert(d[3] == u64_nibble(n, 6) * 16 + u64_nibble(n, 7));
    assert(d[4] == u64_nibble(n, 8) * 16 + u64_nibble(n, 9));
    assert(d[5] == u64_nibble(n, 10) * 16 + u64_nibble(n, 11));
    assert(d[6] == u64_nibble(n, 12) * 16 + u64_nibble(n, 13));
    assert(d[7] == u64_nibble(n, 14) * 16 + u64_nibble(n, 15));
    lemma_nibble(n, 0);
    lemma_nibble(n, 1);
    lemma_nibble(n, 2);
    lemma_nibble(n, 3);
    lemma_nibble(n, 4);
    lemma_nibble(n, 5);
    lemma_nibble(n, 6);
    lemma_nibble(n, 7);
    lemma_nibble(n, 8);
    lemma_nibble(n, 9);
    lemma_nibble(n, 10);
    lemma_nibble(n, 11);
    lemma_nibble(n, 12);
    lemma_nibble(n, 13);
    lemma_nibble(n, 14);
    lemma_nibble(n, 15);
    lemma_nibbles_rebuild(n);
    assert(be_u64(d) == n as int);
}

/// A text that is no DASH7 identifier names an identifier written exactly
/// as the text.
pub proof fn lemma_uid_text_of_non_dash7(s: Seq<char>)
    requires
        parse_dash7_spec(s) is Err,
    ensures
        uid_text(uid_from_spec(s)) == s,
{
    if is_prefix_of(vgw_prefix(), s) {
        assert(vgw_prefix() + s.skip(4) =~= s);
    }
}

/// A text made of `VGW-` and a rest names the virtual gateway of that
/// rest, and that gateway is written back as the same text.
pub proof fn lemma_vgw_text(rest: Seq<char>)
    ensures
        uid_from_spec(seq!['V', 'G', 'W', '-'] + rest) == UidView::Vgw(rest),
        uid_text(UidView::Vgw(rest)) == seq!['V', 'G', 'W', '-'] + rest,
{
    let t = seq!['V', 'G', 'W', '-'] + rest;
    assert(hex_digit_value(t[0]) is None);
    assert(!is_hex(t));
    assert(t.subrange(0, 4) =~= vgw_prefix());
    assert(t.skip(4) =~= rest);
}

/// Writing an identifier and reading the text back gives the identifier
/// again, for every DASH7 identifier and virtual gateway, and for every
/// other identifier whose text reads as neither of those.
pub proof fn lemma_uid_text_roundtrip(u: UidView)
    requires
        u matches UidView::Unknown(s) ==> parse_dash7_spec(s) is Err && !is_prefix_of(
            vgw_prefix(),
            s,
        ),
    ensures
        uid_from_spec(uid_text(u)) == u,
{
    match u {
        UidView::Dash7(n) => {
            lemma_u64_hex_upper_parses(n);
        },
        UidView::Vgw(s) => {
            let t = vgw_prefix() + s;
            assert(hex_digit_value(t[0]) is None);
            assert(!is_hex(t));
            assert(t.subrange(0, 4) =~= vgw_prefix());
            assert(t.skip(4) =~= s);
        },
        UidView::Unknown(s) => {},
    }
}

/// The role a Dash7board user acts with.
#[derive(Debug, PartialEq, Eq, Clone, Copy)]
pub enum Dash7boardPermission {
    Operator,
    Admin,
    Root,
}

} // verus!

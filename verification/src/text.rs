//! Character-level helpers on strings, stated over their `Seq<char>` views.
use vstd::prelude::*;
use vstd::utf8::{decode_utf8, valid_utf8};
use vstd::string::*;

verus! {

/// Appends one character to a string (calls `String::push`).
///
/// Trusted: `String::push` appends the character at the end of the string.
#[verifier::external_body]
pub(crate) fn push_char(s: &mut String, c: char)
    ensures
        final(s)@ == old(s)@.push(c),
{
    s.push(c)
}

/// Appends a string slice to a string.
pub fn push_str(s: &mut String, t: &str)
    ensures
        final(s)@ == old(s)@ + t@,
{
    let ghost start = s@;
    let mut it = t.chars();
    let mut i: usize = 0;
    let n = t.unicode_len();
    while i < n
        invariant
            n == t@.len(),
            i <= n,
            s@ == start + t@.subrange(0, i as int),
        decreases n - i,
    {
        let c = t.get_char(i);
        push_char(s, c);
        i = i + 1;
        assert(s@ =~= start + t@.subrange(0, i as int));
    }
    assert(t@.subrange(0, n as int) =~= t@);
}

/// Whether `prefix` is a prefix of `s`.
pub open spec fn is_prefix_of(prefix: Seq<char>, s: Seq<char>) -> bool {
    prefix.len() <= s.len() && s.subrange(0, prefix.len() as int) == prefix
}

/// A text that differs from `prefix` at a position of `prefix` does not
/// start with `prefix`.
pub proof fn lemma_not_prefix(prefix: Seq<char>, s: Seq<char>, i: int)
    requires
        0 <= i < prefix.len(),
        i < s.len(),
        s[i] != prefix[i],
    ensures
        !is_prefix_of(prefix, s),
{
    if is_prefix_of(prefix, s) {
        assert(s.subrange(0, prefix.len() as int)[i] == s[i]);
    }
}

/// `str::starts_with`, over the characters of both strings.
pub fn starts_with(s: &str, prefix: &str) -> (r: bool)
    ensures
        r == is_prefix_of(prefix@, s@),
{
    let n = s.unicode_len();
    let m = prefix.unicode_len();
    if m > n {
        return false;
    }
    let mut i: usize = 0;
    while i < m
        invariant
            n == s@.len(),
            m == prefix@.len(),
            m <= n,
            i <= m,
            forall|j: int| 0 <= j < i ==> s@[j] == prefix@[j],
        decreases m - i,
    {
        if s.get_char(i) != prefix.get_char(i) {
            return false;
        }
        i = i + 1;
    }
    assert(s@.subrange(0, m as int) =~= prefix@);
    true
}


/// Whether two strings hold the same characters.
pub fn str_eq(a: &str, b: &str) -> (r: bool)
    ensures
        r == (a@ == b@),
{
    let n = a.unicode_len();
    if n != b.unicode_len() {
        return false;
    }
    let mut i: usize = 0;
    while i < n
        invariant
            n == a@.len(),
            n == b@.len(),
            i <= n,
            forall|j: int| 0 <= j < i ==> a@[j] == b@[j],
        decreases n - i,
    {
        if a.get_char(i) != b.get_char(i) {
            return false;
        }
        i = i + 1;
    }
    assert(a@ =~= b@);
    true
}

/// The decimal digit of a value below ten.
pub open spec fn decimal_digit(d: nat) -> char {
    (d + '0' as u32) as char
}

/// The decimal writing of a number, without sign or leading zeros.
pub open spec fn decimal(n: nat) -> Seq<char>
    decreases n,
{
    if n < 10 {
        seq![decimal_digit(n)]
    } else {
        decimal(n / 10).push(decimal_digit(n % 10))
    }
}

/// A decimal writing is never empty.
pub proof fn lemma_decimal_len(n: nat)
    ensures
        decimal(n).len() >= 1,
        n >= 10 ==> decimal(n).len() >= 2,
    decreases n,
{
    if n >= 10 {
        lemma_decimal_len(n / 10);
    }
}

/// A decimal writing holds digits only, so no `-`.
pub proof fn lemma_decimal_no_dash(n: nat)
    ensures
        forall|i: int| 0 <= i < decimal(n).len() ==> #[trigger] decimal(n)[i] != '-',
    decreases n,
{
    if n >= 10 {
        lemma_decimal_no_dash(n / 10);
        assert forall|i: int| 0 <= i < decimal(n).len() implies #[trigger] decimal(n)[i] != '-' by {
            if i < decimal(n / 10).len() {
                assert(decimal(n)[i] == decimal(n / 10)[i]);
            }
        }
    }
}

/// Different numbers are written differently.
pub proof fn lemma_decimal_injective(a: nat, b: nat)
    ensures
        decimal(a) == decimal(b) ==> a == b,
    decreases a,
{
    if decimal(a) == decimal(b) {
        lemma_decimal_len(a);
        lemma_decimal_len(b);
        if a >= 10 && b >= 10 {
            assert(decimal(a).drop_last() =~= decimal(a / 10));
            assert(decimal(b).drop_last() =~= decimal(b / 10));
            lemma_decimal_injective(a / 10, b / 10);
            assert(decimal(a).last() == decimal_digit(a % 10));
            assert(decimal(b).last() == decimal_digit(b % 10));
        } else if a < 10 && b < 10 {
            assert(decimal(a)[0] == decimal_digit(a));
            assert(decimal(b)[0] == decimal_digit(b));
        }
    }
}

/// Writes `n` in decimal onto `s` (as `{}` formats an unsigned integer).
pub fn push_decimal(s: &mut String, n: u64)
    ensures
        final(s)@ == old(s)@ + decimal(n as nat),
    decreases n,
{
    if n >= 10 {
        push_decimal(s, n / 10);
    }
    let d: u8 = (n % 10) as u8;
    push_char(s, (d + 48) as char);
    assert(s@ =~= old(s)@ + decimal(n as nat));
}


/// `std::num::ParseIntError`, carried through as an opaque error value.
#[verifier::external_type_specification]
#[verifier::external_body]
pub struct ExParseIntError(std::num::ParseIntError);

/// `Clone` of `std::num::ParseIntError`, so that errors holding one can be
/// cloned; nothing is claimed of the copy.
pub assume_specification [<std::num::ParseIntError as std::clone::Clone>::clone](
    e: &std::num::ParseIntError,
) -> std::num::ParseIntError;

/// The digits that `from_str_radix` reads: the text after an optional
/// leading `+`.
pub open spec fn radix_digits(s: Seq<char>) -> Seq<char> {
    if s.len() > 0 && s[0] == '+' {
        s.skip(1)
    } else {
        s
    }
}

/// The value of a hexadecimal digit string, most significant digit first.
pub open spec fn hex_digits_value(d: Seq<char>) -> nat
    decreases d.len(),
{
    if d.len() == 0 {
        0
    } else {
        hex_digits_value(d.drop_last()) * 16 + crate::hex_text::hex_digit_value(
            d.last(),
        ).unwrap() as nat
    }
}

/// `u64::from_str_radix(s, 16)` succeeds: an optional `+`, then at least one
/// hexadecimal digit, with a value that fits in 64 bits.
pub open spec fn parses_as_hex_u64(s: Seq<char>) -> bool {
    let d = radix_digits(s);
    d.len() > 0 && crate::hex_text::all_hex_digits(d) && hex_digits_value(d) <= u64::MAX
}

/// `u64::from_str_radix(s, 16)`.
///
/// Trusted: as the standard library documents, the text is an optional `+`
/// followed by one or more digits of the radix (either case), and the call
/// fails on anything else or on a value out of range; on success the result
/// is the value of the digits. Which `ParseIntError` kind comes back is not
/// stated.
#[verifier::external_body]
pub(crate) fn u64_from_hex_str(s: &str) -> (r: Result<u64, std::num::ParseIntError>)
    ensures
        r is Ok <==> parses_as_hex_u64(s@),
        r matches Ok(v) ==> v as nat == hex_digits_value(radix_digits(s@)),
{
    u64::from_str_radix(s, 16)
}


/// `std::str::Utf8Error`, carried through as an opaque error value.
#[verifier::external_type_specification]
#[verifier::external_body]
pub struct ExUtf8Error(std::str::Utf8Error);

/// `std::str::from_utf8`.
///
/// Trusted: as the standard library documents, the bytes are taken as text
/// exactly when they are valid UTF-8, and the text is then what they
/// encode. Which `Utf8Error` comes back is not stated.
#[verifier::external_body]
pub(crate) fn str_from_utf8(b: &[u8]) -> (r: Result<&str, std::str::Utf8Error>)
    ensures
        r is Ok <==> valid_utf8(b@),
        r matches Ok(s) ==> s@ == decode_utf8(b@),
{
    std::str::from_utf8(b)
}

/// A vector holding the bytes of a slice (`<[u8]>::to_vec`).
pub fn copy_bytes(b: &[u8]) -> (r: Vec<u8>)
    ensures
        r@ == b@,
{
    let mut v: Vec<u8> = Vec::new();
    let mut i: usize = 0;
    while i < b.len()
        invariant
            i <= b@.len(),
            v@ == b@.take(i as int),
        decreases b@.len() - i,
    {
        v.push(b[i]);
        i = i + 1;
        assert(v@ =~= b@.take(i as int));
    }
    assert(b@.take(b@.len() as int) =~= b@);
    v
}

} // verus!

//! Hexadecimal text: the digit alphabet, the decoding of digit pairs into
//! bytes and the upper-case encoding of bytes, together with the calls into
//! the `hex` crate that the codecs make.
use vstd::prelude::*;

verus! {

/// `hex::FromHexError`, carried through as an opaque error value.
#[verifier::external_type_specification]
#[verifier::external_body]
pub struct ExFromHexError(hex::FromHexError);

/// `Clone` of `hex::FromHexError` (derived in the crate), so that errors
/// holding one can be cloned; nothing is claimed of the copy.
pub assume_specification [<hex::FromHexError as std::clone::Clone>::clone](
    e: &hex::FromHexError,
) -> hex::FromHexError;

/// The value of one hexadecimal digit (either case), or `None` for any
/// other character.
pub open spec fn hex_digit_value(c: char) -> Option<u8> {
    if '0' <= c && c <= '9' {
        Some((c as u32 - '0' as u32) as u8)
    } else if 'a' <= c && c <= 'f' {
        Some((c as u32 - 'a' as u32 + 10) as u8)
    } else if 'A' <= c && c <= 'F' {
        Some((c as u32 - 'A' as u32 + 10) as u8)
    } else {
        None
    }
}

/// Every character of `s` is a hexadecimal digit.
pub open spec fn all_hex_digits(s: Seq<char>) -> bool {
    forall|i: int| 0 <= i < s.len() ==> (#[trigger] hex_digit_value(s[i])) is Some
}

/// `s` is a whole hexadecimal text: an even number of hexadecimal digits.
pub open spec fn is_hex(s: Seq<char>) -> bool {
    s.len() % 2 == 0 && all_hex_digits(s)
}

/// The byte written by the two digits `hi` `lo`.
pub open spec fn hex_pair(hi: char, lo: char) -> u8 {
    (hex_digit_value(hi).unwrap() * 16 + hex_digit_value(lo).unwrap()) as u8
}

/// The bytes that a hexadecimal text stands for, two digits per byte, most
/// significant digit first.
pub open spec fn hex_decoded(s: Seq<char>) -> Seq<u8> {
    Seq::new((s.len() / 2) as nat, |i: int| hex_pair(s[2 * i], s[2 * i + 1]))
}

/// The upper-case digit of a value below 16.
pub open spec fn upper_hex_digit(n: u8) -> char {
    if n < 10 {
        (n + '0' as u32) as char
    } else {
        (n - 10 + 'A' as u32) as char
    }
}

/// Two upper-case digits per byte, high nibble first.
pub open spec fn hex_encoded_upper(b: Seq<u8>) -> Seq<char> {
    Seq::new(
        2 * b.len(),
        |i: int|
            if i % 2 == 0 {
                upper_hex_digit(b[i / 2] / 16)
            } else {
                upper_hex_digit(b[i / 2] % 16)
            },
    )
}

/// `hex::decode` on the bytes of `s`.
///
/// Trusted: the call succeeds exactly when `s` is an even number of
/// hexadecimal digits of either case, and then yields one byte per digit
/// pair, high digit first. A non-ASCII character is never a digit, so stating
/// this over the characters of `s` is the same as over its UTF-8 bytes. Which
/// `FromHexError` comes back on failure (odd length, or the first bad
/// character and its byte index) is not stated.
#[verifier::external_body]
pub(crate) fn hex_decode(s: &str) -> (r: Result<Vec<u8>, hex::FromHexError>)
    ensures
        r is Ok <==> is_hex(s@),
        r matches Ok(v) ==> v@ == hex_decoded(s@),
{
    hex::decode(s)
}

/// `hex::decode_to_slice` of `s` into the whole of `out`.
///
/// Trusted: the call succeeds exactly when `s` is an even number of
/// hexadecimal digits whose pairs fill `out` exactly, and then `out` holds
/// the decoded bytes. The length of `out` never changes; what a failed call
/// leaves in `out` (the pairs before the first bad character are written) is
/// not stated, nor which error comes back.
#[verifier::external_body]
pub(crate) fn hex_decode_to_slice(s: &str, out: &mut Vec<u8>) -> (r: Result<(), hex::FromHexError>)
    ensures
        final(out)@.len() == old(out)@.len(),
        r is Ok <==> (is_hex(s@) && s@.len() == 2 * old(out)@.len()),
        r is Ok ==> final(out)@ == hex_decoded(s@),
{
    hex::decode_to_slice(s, out.as_mut_slice())
}

/// `hex::encode_upper` of a byte slice.
///
/// Trusted: the result is two upper-case hexadecimal digits per byte, high
/// nibble first (the crate's `0123456789ABCDEF` table).
#[verifier::external_body]
pub(crate) fn hex_encode_upper(b: &[u8]) -> (r: String)
    ensures
        r@ == hex_encoded_upper(b@),
{
    hex::encode_upper(b)
}

} // verus!

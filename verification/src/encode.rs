//! Percent-encoding of query-component values and decimal rendering of
//! integer ids, with exact specifications of both wire forms.

use vstd::prelude::*;
use vstd::utf8::encode_utf8;

verus! {

/// Whether a byte passes through percent-encoding unchanged: the ASCII
/// alphanumerics and `-`, `.`, `_`, `~`.
pub open spec fn is_unreserved_byte(b: u8) -> bool {
    (48 <= b <= 57)  // '0'..='9'
    || (65 <= b <= 90)  // 'A'..='Z'
    || (97 <= b <= 122)  // 'a'..='z'
    || b == 45  // '-'
    || b == 46  // '.'
    || b == 95  // '_'
    || b == 126  // '~'
}

/// The uppercase hexadecimal digit of a value below 16.
pub open spec fn hex_upper_digit(d: u8) -> char
    recommends
        d < 16,
{
    if d < 10 {
        ((48 + d) as u8) as char  // '0' + d
    } else {
        ((55 + d) as u8) as char  // 'A' + (d - 10)
    }
}

/// The percent-encoding of one byte: unreserved bytes stand for
/// themselves, every other byte becomes `%` and two uppercase
/// hexadecimal digits.
pub open spec fn percent_encoded_byte(b: u8) -> Seq<char> {
    if is_unreserved_byte(b) {
        seq![b as char]
    } else {
        seq!['%', hex_upper_digit(b / 16), hex_upper_digit(b % 16)]
    }
}

/// The percent-encoding of a byte sequence, byte by byte.
pub open spec fn percent_encoded_bytes(bs: Seq<u8>) -> Seq<char>
    decreases bs.len(),
{
    if bs.len() == 0 {
        Seq::empty()
    } else {
        percent_encoded_byte(bs[0]) + percent_encoded_bytes(bs.drop_first())
    }
}

/// The percent-encoding of a string: its UTF-8 bytes, each encoded.
/// A space therefore becomes `%20`, never `+`.
pub open spec fn percent_encoded(s: Seq<char>) -> Seq<char> {
    percent_encoded_bytes(encode_utf8(s))
}

/// Relies on `urlencoding::encode`: percent-encodes every byte of the
/// UTF-8 form of the string except ASCII alphanumerics and `-`, `_`,
/// `.`, `~`, using uppercase hexadecimal digits.
#[verifier::external_body]
pub(crate) fn percent_encode(s: &str) -> (r: String)
    ensures
        r@ == percent_encoded(s@),
{
    urlencoding::encode(s).into_owned()
}

/// The decimal digit character of a value below 10.
pub open spec fn decimal_digit(d: u8) -> char
    recommends
        d < 10,
{
    ((48 + d) as u8) as char  // '0' + d
}

/// The decimal rendering of a non-negative integer: most significant
/// digit first, no sign and no leading zeroes.
pub open spec fn decimal_of(n: nat) -> Seq<char>
    decreases n,
{
    if n < 10 {
        seq![decimal_digit(n as u8)]
    } else {
        decimal_of(n / 10) + seq![decimal_digit((n % 10) as u8)]
    }
}

/// Relies on `u64`'s `Display` implementation via `ToString`: renders
/// the value as decimal digits, with no sign and no leading zeroes.
#[verifier::external_body]
pub(crate) fn u64_to_string(n: u64) -> (r: String)
    ensures
        r@ == decimal_of(n as nat),
{
    n.to_string()
}

} // verus!

//! Integer numerals: what std's integer parsers accept, stated over characters.
use vstd::prelude::*;

verus! {

/// Whether `c` is a digit of the given radix (at most ten).
pub open spec fn is_digit(c: char, radix: nat) -> bool {
    '0' <= c && (c as int) - ('0' as int) < radix
}

/// Whether every character of `s` is a digit of the given radix.
pub open spec fn all_digits(s: Seq<char>, radix: nat) -> bool {
    forall|i: int| 0 <= i < s.len() ==> is_digit(#[trigger] s[i], radix)
}

/// The value of a string of digits, most significant first.
pub open spec fn digits_value(s: Seq<char>, radix: nat) -> int
    decreases s.len(),
{
    if s.len() == 0 {
        0
    } else {
        digits_value(s.drop_last(), radix) * radix + ((s.last() as int) - ('0' as int))
    }
}

/// The value of an optional `+` or `-` sign followed by one or more digits,
/// or `None` when `s` is not of that shape.
pub open spec fn signed_numeral(s: Seq<char>, radix: nat) -> Option<int> {
    if s.len() > 0 && (s[0] == '+' || s[0] == '-') {
        let body = s.drop_first();
        if body.len() > 0 && all_digits(body, radix) {
            Some(if s[0] == '-' { -digits_value(body, radix) } else { digits_value(body, radix) })
        } else {
            None
        }
    } else if s.len() > 0 && all_digits(s, radix) {
        Some(digits_value(s, radix))
    } else {
        None
    }
}

/// Relies on `str::parse::<isize>`: it accepts exactly an optional sign and
/// decimal digits whose value fits in `isize`, and returns that value.
#[verifier::external_body]
pub(crate) fn parse_isize(s: &str) -> (r: Option<isize>)
    ensures
        r matches Some(v) ==> signed_numeral(s@, 10) == Some(v as int),
        r is None ==> !(signed_numeral(s@, 10) matches Some(v) && isize::MIN <= v
            <= isize::MAX),
{
    s.parse::<isize>().ok()
}

/// Relies on `i8::from_str_radix` with radix 2: it accepts exactly an optional
/// sign and binary digits whose value fits in `i8`, and returns that value.
#[verifier::external_body]
pub(crate) fn parse_binary_i8(s: &str) -> (r: Option<i8>)
    ensures
        r matches Some(v) ==> signed_numeral(s@, 2) == Some(v as int),
        r is None ==> !(signed_numeral(s@, 2) matches Some(v) && i8::MIN <= v <= i8::MAX),
{
    i8::from_str_radix(s, 2).ok()
}

} // verus!

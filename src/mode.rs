//! The mode resolver: a 4-bit mask, written in decimal or in binary, and the
//! per-class flags that it selects.
use vstd::prelude::*;
use vstd::arithmetic::div_mod::lemma_div_basics;
use vstd::arithmetic::power2::{lemma2_to64, pow2};
use crate::numeral::{all_digits, is_digit, digits_value, parse_binary_i8, signed_numeral};

verus! {

/// The decimal forms "1" to "15": one or two decimal digits, no leading zero,
/// value from 1 to 15.
pub open spec fn decimal_mode(s: Seq<char>) -> Option<int> {
    if 1 <= s.len() <= 2 && s[0] != '0' && all_digits(s, 10) && 1 <= digits_value(s, 10) <= 15 {
        Some(digits_value(s, 10))
    } else {
        None
    }
}

/// The mode that a token resolves to: a decimal form first, else a binary
/// numeral whose value lies in `1..=15`; `None` when it is invalid.
pub open spec fn mode_value(s: Seq<char>) -> Option<int> {
    if decimal_mode(s) is Some {
        decimal_mode(s)
    } else {
        match signed_numeral(s, 2) {
            Some(v) => if 1 <= v <= 15 { Some(v) } else { None },
            None => None,
        }
    }
}

fn decimal_mode_of(mode_in: &str) -> (r: Option<i8>)
    ensures
        r is Some <==> decimal_mode(mode_in@) is Some,
        r matches Some(v) ==> decimal_mode(mode_in@) == Some(v as int),
{
    let s = Ghost(mode_in@);
    let n = mode_in.unicode_len();
    if n == 1 {
        let c = mode_in.get_char(0);
        proof {
            reveal_with_fuel(digits_value, 2);
            assert(s@.drop_last().len() == 0);
        }
        if '1' <= c && c <= '9' {
            let v = (c as u32 - '0' as u32) as i8;
            assert(all_digits(s@, 10));
            return Some(v);
        }
        return None;
    } else if n == 2 {
        let c0 = mode_in.get_char(0);
        let c1 = mode_in.get_char(1);
        proof {
            reveal_with_fuel(digits_value, 3);
            assert(s@.drop_last().drop_last().len() == 0);
            assert(s@.drop_last()[0] == c0);
            assert(s@.drop_last().last() == c0);
        }
        if c0 == '1' && '0' <= c1 && c1 <= '5' {
            let v = (10 + (c1 as u32 - '0' as u32)) as i8;
            assert(all_digits(s@, 10));
            return Some(v);
        }
        if c0 != '0' && is_digit_char(c0) && is_digit_char(c1) {
            assert(digits_value(s@, 10) >= 16);
        }
        return None;
    }
    None
}

fn is_digit_char(c: char) -> (r: bool)
    ensures
        r == ('0' <= c && c <= '9'),
{
    '0' <= c && c <= '9'
}

/// Resolves a mode token: "1" to "15" in decimal, else a binary numeral with a
/// value in `1..=15`. `None` marks an invalid token.
pub fn parse_mode(mode_in: &str) -> (r: Option<i8>)
    ensures
        r is Some <==> mode_value(mode_in@) is Some,
        r matches Some(v) ==> mode_value(mode_in@) == Some(v as int),
{
    if let Some(v) = decimal_mode_of(mode_in) {
        return Some(v);
    }
    match parse_binary_i8(mode_in) {
        Some(value) => if 0 < value && value <= 15 { Some(value) } else { None },
        None => None,
    }
}

/// Resolves a mode token as [`parse_mode`] does, with -1 standing for an
/// invalid token.
pub fn get_mode_num(mode_in: &str) -> (r: i8)
    ensures
        r == match mode_value(mode_in@) {
            Some(v) => v,
            None => -1,
        },
{
    match parse_mode(mode_in) {
        Some(v) => v,
        None => -1,
    }
}

/// The decimal form of a number from 1 to 15, without leading zeros.
pub open spec fn decimal_text(k: int) -> Seq<char> {
    if k < 10 {
        seq!["0123456789"@[k]]
    } else {
        seq!['1', "0123456789"@[k - 10]]
    }
}

/// Each decimal form "1" to "15" resolves to its own value.
pub proof fn lemma_decimal_modes(k: int)
    requires
        1 <= k <= 15,
    ensures
        mode_value(decimal_text(k)) == Some(k),
{
    reveal_strlit("0123456789");
    reveal_with_fuel(digits_value, 3);
    let digits = "0123456789"@;
    assert(forall|d: int| 0 <= d < 10 ==> (#[trigger] digits[d] as int) - ('0' as int) == d) by {
        assert(digits[0] == '0' && digits[1] == '1' && digits[2] == '2' && digits[3] == '3'
            && digits[4] == '4' && digits[5] == '5' && digits[6] == '6' && digits[7] == '7'
            && digits[8] == '8' && digits[9] == '9');
    }
    let s = decimal_text(k);
    if k < 10 {
        assert(s.drop_last().len() == 0);
        assert(is_digit(s[0], 10));
    } else {
        assert(s.drop_last() =~= seq!['1']);
        assert(s.drop_last().drop_last().len() == 0);
        assert(is_digit(s[0], 10) && is_digit(s[1], 10));
    }
    assert(all_digits(s, 10));
}

/// Bit `i` (0 is the least significant) of the mode's two's-complement byte.
pub open spec fn mode_bit(mode_num: i8, i: int) -> bool {
    ((#[verifier::truncate] (mode_num as u8)) as int / pow2(i as nat) as int) % 2 == 1
}

/// The flags of a mode: flag `j` is bit `3 - j`, so the most significant of
/// the four bits selects class 0.
pub open spec fn mode_flags(mode_num: i8) -> Seq<bool> {
    seq![mode_bit(mode_num, 3), mode_bit(mode_num, 2), mode_bit(mode_num, 1), mode_bit(mode_num, 0)]
}

proof fn lemma_mask_bit(m: i8, i: u32)
    requires
        i < 4,
    ensures
        ((m & (1i8 << i)) != 0) == mode_bit(m, i as int),
{
    lemma2_to64();
    if i == 0 {
        assert(((m & (1i8 << i)) != 0) == ((#[verifier::truncate] (m as u8)) % 2 == 1)) by (bit_vector)
            requires i == 0;
        let u = #[verifier::truncate] (m as u8);
        lemma_div_basics(u as int);
    } else if i == 1 {
        assert(((m & (1i8 << i)) != 0) == (((#[verifier::truncate] (m as u8)) / 2) % 2 == 1)) by (bit_vector)
            requires i == 1;
    } else if i == 2 {
        assert(((m & (1i8 << i)) != 0) == (((#[verifier::truncate] (m as u8)) / 4) % 2 == 1)) by (bit_vector)
            requires i == 2;
    } else {
        assert(((m & (1i8 << i)) != 0) == (((#[verifier::truncate] (m as u8)) / 8) % 2 == 1)) by (bit_vector)
            requires i == 3;
    }
}

/// Expands a mode into one flag per character class: flag `3 - i` is bit `i`.
/// Total over all of `i8`.
pub fn get_mode_flags(mode_num: i8) -> (r: [bool; 4])
    ensures
        r@ == mode_flags(mode_num),
{
    let mut result: [bool; 4] = [false; 4];
    for i in 0..4
        invariant
            forall|j: int| 3 - i < j < 4 ==> #[trigger] result@[j] == mode_bit(mode_num, 3 - j),
    {
        proof {
            lemma_mask_bit(mode_num, i as u32);
        }
        result[3 - i] = (mode_num & (1i8 << i)) != 0;
    }
    assert(result@ =~= mode_flags(mode_num));
    result
}

} // verus!

//! The length resolver and the password length calculator.
use vstd::prelude::*;
use crate::numeral::{parse_isize, signed_numeral};
use crate::text::same_text;
use crate::random::draw_below;
use rand::rngs::ThreadRng;

verus! {

/// The tier that a length token names, case-sensitively, if it names one.
pub open spec fn named_tier(s: Seq<char>) -> Option<int> {
    if s == "0"@ || s == "ss"@ || s == "super_short"@ {
        Some(0)
    } else if s == "1"@ || s == "s"@ || s == "short"@ {
        Some(1)
    } else if s == "2"@ || s == "m"@ || s == "medium"@ {
        Some(2)
    } else if s == "3"@ || s == "l"@ || s == "long"@ {
        Some(3)
    } else if s == "4"@ || s == "ll"@ || s == "super_long"@ {
        Some(4)
    } else {
        None
    }
}

/// The raw length that a token gives when the tier check is bypassed: a signed
/// decimal integer that fits in `isize`.
pub open spec fn raw_length(s: Seq<char>) -> Option<int> {
    match signed_numeral(s, 10) {
        Some(v) => if isize::MIN <= v <= isize::MAX { Some(v) } else { None },
        None => None,
    }
}

/// The length setting that a token resolves to, or `None` when it is invalid.
pub open spec fn length_setting(s: Seq<char>, bypass: bool) -> Option<int> {
    if bypass { raw_length(s) } else { named_tier(s) }
}

/// Resolves a length token: a named tier, or with `bypass` any signed decimal
/// integer. `None` marks an invalid token.
pub fn parse_len(length_in: &str, bypass: bool) -> (r: Option<isize>)
    ensures
        r is Some <==> length_setting(length_in@, bypass) is Some,
        r matches Some(v) ==> length_setting(length_in@, bypass) == Some(v as int),
{
    if bypass {
        return parse_isize(length_in);
    }
    if same_text(length_in, "0") || same_text(length_in, "ss") || same_text(length_in, "super_short") {
        Some(0)
    } else if same_text(length_in, "1") || same_text(length_in, "s") || same_text(length_in, "short") {
        Some(1)
    } else if same_text(length_in, "2") || same_text(length_in, "m") || same_text(length_in, "medium") {
        Some(2)
    } else if same_text(length_in, "3") || same_text(length_in, "l") || same_text(length_in, "long") {
        Some(3)
    } else if same_text(length_in, "4") || same_text(length_in, "ll") || same_text(length_in, "super_long") {
        Some(4)
    } else {
        None
    }
}

/// Resolves a length token as [`parse_len`] does, with -1 standing for an
/// invalid token.
pub fn get_len(length_in: &str, bypass: bool) -> (r: isize)
    ensures
        r == match length_setting(length_in@, bypass) {
            Some(v) => v,
            None => -1,
        },
{
    match parse_len(length_in, bypass) {
        Some(v) => v,
        None => -1,
    }
}

} // verus!

verus! {

/// Every tier is reached by its digit, its short alias and its full name alike.
pub proof fn lemma_tier_aliases()
    ensures
        named_tier("0"@) == Some(0int) && named_tier("ss"@) == Some(0int)
            && named_tier("super_short"@) == Some(0int),
        named_tier("1"@) == Some(1int) && named_tier("s"@) == Some(1int)
            && named_tier("short"@) == Some(1int),
        named_tier("2"@) == Some(2int) && named_tier("m"@) == Some(2int)
            && named_tier("medium"@) == Some(2int),
        named_tier("3"@) == Some(3int) && named_tier("l"@) == Some(3int)
            && named_tier("long"@) == Some(3int),
        named_tier("4"@) == Some(4int) && named_tier("ll"@) == Some(4int)
            && named_tier("super_long"@) == Some(4int),
{
    reveal_strlit("0");
    reveal_strlit("ss");
    reveal_strlit("super_short");
    reveal_strlit("1");
    reveal_strlit("s");
    reveal_strlit("short");
    reveal_strlit("2");
    reveal_strlit("m");
    reveal_strlit("medium");
    reveal_strlit("3");
    reveal_strlit("l");
    reveal_strlit("long");
    reveal_strlit("4");
    reveal_strlit("ll");
    reveal_strlit("super_long");
    assert("0"@.len() == 1 && "0"@[0] == '0');
    assert("ss"@.len() == 2 && "ss"@[0] == 's');
    assert("super_short"@.len() == 11 && "super_short"@[0] == 's');
    assert("1"@.len() == 1 && "1"@[0] == '1');
    assert("s"@.len() == 1 && "s"@[0] == 's');
    assert("short"@.len() == 5 && "short"@[0] == 's');
    assert("2"@.len() == 1 && "2"@[0] == '2');
    assert("m"@.len() == 1 && "m"@[0] == 'm');
    assert("medium"@.len() == 6 && "medium"@[0] == 'm');
    assert("3"@.len() == 1 && "3"@[0] == '3');
    assert("l"@.len() == 1 && "l"@[0] == 'l');
    assert("long"@.len() == 4 && "long"@[0] == 'l');
    assert("4"@.len() == 1 && "4"@[0] == '4');
    assert("ll"@.len() == 2 && "ll"@[0] == 'l');
    assert("super_long"@.len() == 10 && "super_long"@[0] == 's');
}

/// With the tier check on, a token outside the vocabulary is invalid.
pub proof fn lemma_unknown_token_invalid(s: Seq<char>)
    requires
        named_tier(s) is None,
    ensures
        length_setting(s, false) is None,
{
}

/// How many characters each tier adds, and the width of the random jitter.
pub const SCALING_FACTOR: isize = 4;

/// Whether the length formula stays within `isize` for this setting.
pub open spec fn length_formula_fits(len: int) -> bool {
    isize::MIN <= 4 * len && 4 * len + 7 <= isize::MAX
}

/// The password length for a setting and a jitter in `0..4`:
/// `4 * len + 4 + jitter`.
pub fn pwd_len_with(len: isize, jitter: usize) -> (r: isize)
    requires
        length_formula_fits(len as int),
        jitter < 4,
    ensures
        r == 4 * len + 4 + jitter,
{
    let base_len: isize = 4 * len + 4;
    base_len + jitter as isize
}

/// Draws a password length for a setting: `4 * len + 4` plus a uniform
/// jitter in `0..4`.
pub fn calc_pwd_len(rng: &mut ThreadRng, len: isize) -> (r: isize)
    requires
        length_formula_fits(len as int),
    ensures
        4 * len + 4 <= r <= 4 * len + 7,
{
    let jitter = draw_below(rng, SCALING_FACTOR as usize);
    pwd_len_with(len, jitter)
}

} // verus!

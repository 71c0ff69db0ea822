//! The character class table, and the pool and labels that a set of flags selects.
use vstd::prelude::*;
use crate::text::push_char;

verus! {

/// The alphabet of class `i`: numerals, lower-case letters, upper-case
/// letters, special characters.
pub open spec fn class_alphabet(i: int) -> Seq<char> {
    if i == 0 {
        "0123456789"@
    } else if i == 1 {
        "abcdefghijklmnopqrstuvwxyz"@
    } else if i == 2 {
        "ABCDEFGHIJKLMNOPQRSTUVWXYZ"@
    } else {
        "!@#$%^&*,.`~+-/?<>="@
    }
}

/// The tag name of class `i`.
pub open spec fn class_tag(i: int) -> Seq<char> {
    if i == 0 {
        "nums"@
    } else if i == 1 {
        "alpha_lower"@
    } else if i == 2 {
        "alpha_upper"@
    } else {
        "special_chars"@
    }
}

/// The alphabets of the first `k` classes whose flag is set, in class order.
pub open spec fn pool_upto(flags: Seq<bool>, k: int) -> Seq<char>
    decreases k,
{
    if k <= 0 {
        Seq::empty()
    } else {
        pool_upto(flags, k - 1) + if flags[k - 1] { class_alphabet(k - 1) } else { Seq::empty() }
    }
}

/// The tags of the first `k` classes whose flag is set, each followed by `;`.
pub open spec fn tags_upto(flags: Seq<bool>, k: int) -> Seq<char>
    decreases k,
{
    if k <= 0 {
        Seq::empty()
    } else {
        tags_upto(flags, k - 1) + if flags[k - 1] { class_tag(k - 1).push(';') } else { Seq::empty() }
    }
}

/// The character pool of a set of flags.
pub open spec fn pool_of(flags: Seq<bool>) -> Seq<char> {
    pool_upto(flags, 4)
}

/// The tag list of a set of flags.
pub open spec fn tags_of(flags: Seq<bool>) -> Seq<char> {
    tags_upto(flags, 4)
}

/// The alphabet of a class.
pub fn class_chars(i: usize) -> (r: &'static str)
    requires
        i < 4,
    ensures
        r@ == class_alphabet(i as int),
{
    if i == 0 {
        "0123456789"
    } else if i == 1 {
        "abcdefghijklmnopqrstuvwxyz"
    } else if i == 2 {
        "ABCDEFGHIJKLMNOPQRSTUVWXYZ"
    } else {
        "!@#$%^&*,.`~+-/?<>="
    }
}

/// The tag name of a class.
pub fn class_tag_name(i: usize) -> (r: &'static str)
    requires
        i < 4,
    ensures
        r@ == class_tag(i as int),
{
    if i == 0 {
        "nums"
    } else if i == 1 {
        "alpha_lower"
    } else if i == 2 {
        "alpha_upper"
    } else {
        "special_chars"
    }
}

/// Concatenates, in class order, the alphabet of every class whose flag is set.
pub fn char_pool(flags: [bool; 4]) -> (r: String)
    ensures
        r@ == pool_of(flags@),
{
    let mut chars = String::new();
    for i in 0..4
        invariant
            chars@ == pool_upto(flags@, i as int),
    {
        if flags[i] {
            chars.append(class_chars(i));
        }
        assert(chars@ =~= pool_upto(flags@, i + 1));
    }
    chars
}

/// Lists the tag of every class whose flag is set, each followed by `;`.
pub fn mode_tags(flags: [bool; 4]) -> (r: String)
    ensures
        r@ == tags_of(flags@),
{
    let mut mode_abstr = String::new();
    for i in 0..4
        invariant
            mode_abstr@ == tags_upto(flags@, i as int),
    {
        if flags[i] {
            mode_abstr.append(class_tag_name(i));
            push_char(&mut mode_abstr, ';');
        }
        assert(mode_abstr@ =~= tags_upto(flags@, i + 1));
    }
    mode_abstr
}

/// The display name of a length setting: the tier's name, or a fallback for
/// a setting outside the five tiers.
pub open spec fn tier_name(len: int) -> Seq<char> {
    if len == 0 {
        "super_short"@
    } else if len == 1 {
        "short"@
    } else if len == 2 {
        "medium"@
    } else if len == 3 {
        "long"@
    } else if len == 4 {
        "super_long"@
    } else {
        "Eggs Benedict"@
    }
}

/// The display name of a length setting.
pub fn length_tag(len: isize) -> (r: &'static str)
    ensures
        r@ == tier_name(len as int),
{
    match len {
        0 => "super_short",
        1 => "short",
        2 => "medium",
        3 => "long",
        4 => "super_long",
        _ => "Eggs Benedict",
    }
}

} // verus!

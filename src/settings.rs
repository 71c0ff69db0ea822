//! The generation policy resolved from the raw options, and one run of it.
use vstd::prelude::*;
use rand::rngs::ThreadRng;
use crate::classes::{char_pool, class_alphabet, length_tag, mode_tags, pool_of, pool_upto, tags_of, tier_name};
use crate::length::{calc_pwd_len, get_len, length_formula_fits, length_setting};
use crate::mode::{get_mode_flags, get_mode_num, mode_bit, mode_flags, mode_value};
use crate::password::{draw_count, pwd_gen};
use vstd::arithmetic::div_mod::lemma_div_basics;
use vstd::arithmetic::power2::lemma2_to64;

verus! {

/// The length setting used when no length option is given: "medium".
pub const DEFAULT_LENGTH: isize = 2;

/// The mode used when no mode option is given: every class.
pub const DEFAULT_MODE: i8 = 15;

/// Everything that one run derives from its options before drawing.
pub struct Settings {
    /// The length tier, a raw length under bypass, or -1 for an invalid token.
    pub length_setting: isize,
    /// The mode in `1..=15`, or -1 for an invalid token.
    pub mode_num: i8,
    /// One flag per character class.
    pub flags: [bool; 4],
    /// The alphabets of the selected classes, concatenated in class order.
    pub chars: String,
    /// The tags of the selected classes, each followed by `;`.
    pub mode_abstr: String,
    /// The display name of the length setting.
    pub length_tag: &'static str,
}

/// The length setting for an optional length token.
pub open spec fn setting_of(length_in: Option<Seq<char>>, bypass: bool) -> int {
    match length_in {
        Some(s) => match length_setting(s, bypass) {
            Some(v) => v,
            None => -1,
        },
        None => DEFAULT_LENGTH as int,
    }
}

/// The mode for an optional mode token.
pub open spec fn mode_of(mode_in: Option<Seq<char>>) -> int {
    match mode_in {
        Some(s) => match mode_value(s) {
            Some(v) => v,
            None => -1,
        },
        None => DEFAULT_MODE as int,
    }
}

impl Settings {
    /// The fields agree with one another: flags from the mode, pool and tags
    /// from the flags, display name from the length setting.
    pub open spec fn wf(&self) -> bool {
        &&& self.mode_num == -1 || 1 <= self.mode_num <= 15
        &&& self.flags@ == mode_flags(self.mode_num)
        &&& self.chars@ == pool_of(self.flags@)
        &&& self.mode_abstr@ == tags_of(self.flags@)
        &&& self.length_tag@ == tier_name(self.length_setting as int)
    }
}

/// Every mode that the resolver can give, -1 included, selects a non-empty pool.
pub proof fn lemma_resolved_mode_pool_nonempty(mode_num: i8)
    requires
        mode_num == -1 || 1 <= mode_num <= 15,
    ensures
        pool_of(mode_flags(mode_num)).len() > 0,
{
    lemma2_to64();
    let flags = mode_flags(mode_num);
    reveal_with_fuel(pool_upto, 5);
    assert(flags[0] || flags[1] || flags[2] || flags[3]) by {
        let u = #[verifier::truncate] (mode_num as u8);
        if mode_num == -1 {
            assert(u == 255u8) by (bit_vector)
                requires mode_num == -1i8, u == #[verifier::truncate] (mode_num as u8);
        } else {
            assert(u as int == mode_num as int);
        }
        assert((u / 8) % 2 == 1 || (u / 4) % 2 == 1 || (u / 2) % 2 == 1 || u % 2 == 1) by (bit_vector)
            requires (1u8 <= u && u <= 15u8) || u == 255u8;
        assert(((u / 8) % 2 == 1) == ((u as int / 8) % 2 == 1));
        assert(((u / 4) % 2 == 1) == ((u as int / 4) % 2 == 1));
        assert(((u / 2) % 2 == 1) == ((u as int / 2) % 2 == 1));
        lemma_div_basics(u as int);
        assert(mode_bit(mode_num, 3) == ((u as int / 8) % 2 == 1));
        assert(mode_bit(mode_num, 2) == ((u as int / 4) % 2 == 1));
        assert(mode_bit(mode_num, 1) == ((u as int / 2) % 2 == 1));
        assert(mode_bit(mode_num, 0) == ((u as int / 1) % 2 == 1));
        assert(mode_bit(mode_num, 3) || mode_bit(mode_num, 2) || mode_bit(mode_num, 1) || mode_bit(mode_num, 0));
    }
    reveal_strlit("0123456789");
    reveal_strlit("abcdefghijklmnopqrstuvwxyz");
    reveal_strlit("ABCDEFGHIJKLMNOPQRSTUVWXYZ");
    reveal_strlit("!@#$%^&*,.`~+-/?<>=");
    assert(forall|i: int| 0 <= i < 4 ==> #[trigger] class_alphabet(i).len() > 0);
}

/// Resolves the raw options into a generation policy; an absent option takes
/// its default.
pub fn resolve_settings(length_in: Option<&str>, mode_in: Option<&str>, bypass: bool) -> (r: Settings)
    ensures
        r.wf(),
        r.length_setting == setting_of(
            match length_in { Some(s) => Some(s@), None => None },
            bypass,
        ),
        r.mode_num == mode_of(match mode_in { Some(s) => Some(s@), None => None }),
        r.chars@.len() > 0,
{
    let length_setting = match length_in {
        Some(s) => get_len(s, bypass),
        None => DEFAULT_LENGTH,
    };
    let mode_num = match mode_in {
        Some(s) => get_mode_num(s),
        None => DEFAULT_MODE,
    };
    let flags = get_mode_flags(mode_num);
    let chars = char_pool(flags);
    let mode_abstr = mode_tags(flags);
    proof {
        lemma_resolved_mode_pool_nonempty(mode_num);
    }
    Settings { length_setting, mode_num, flags, chars, mode_abstr, length_tag: length_tag(length_setting) }
}

/// Draws a password length for the settings, then a password of that length
/// from their pool. Returns the length and the password.
pub fn generate_password(rng: &mut ThreadRng, settings: &Settings) -> (r: (isize, String))
    requires
        settings.chars@.len() > 0,
        length_formula_fits(settings.length_setting as int),
    ensures
        4 * settings.length_setting + 4 <= r.0 <= 4 * settings.length_setting + 7,
        r.1@.len() == draw_count(r.0 as int),
        forall|i: int| 0 <= i < r.1@.len() ==> settings.chars@.contains(#[trigger] r.1@[i]),
{
    let password_length = calc_pwd_len(rng, settings.length_setting);
    let password = pwd_gen(rng, password_length, settings.chars.clone());
    (password_length, password)
}

} // verus!

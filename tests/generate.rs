use pwdgen::classes::{char_pool, class_chars, class_tag_name, length_tag, mode_tags};
use pwdgen::length::{calc_pwd_len, pwd_len_with};
use pwdgen::password::{draw_positions, pwd_from_draws, pwd_gen};
use pwdgen::settings::{generate_password, resolve_settings};

const ALL: &str = "0123456789abcdefghijklmnopqrstuvwxyzABCDEFGHIJKLMNOPQRSTUVWXYZ!@#$%^&*,.`~+-/?<>=";

#[test]
fn length_formula_exact_values() {
    assert_eq!(pwd_len_with(0, 0), 4);
    assert_eq!(pwd_len_with(2, 3), 15);
    assert_eq!(pwd_len_with(4, 1), 21);
    assert_eq!(pwd_len_with(-1, 2), 2);
    assert_eq!(pwd_len_with(-3, 0), -8);
}

#[test]
fn drawn_lengths_stay_in_their_tier_range() {
    let mut rng = rand::thread_rng();
    for t in 0..=4isize {
        for _ in 0..200 {
            let n = calc_pwd_len(&mut rng, t);
            assert!(4 * t + 4 <= n && n <= 4 * t + 7, "tier {} gave {}", t, n);
        }
    }
}

#[test]
fn zero_length_gives_empty_password() {
    let mut rng = rand::thread_rng();
    assert_eq!(pwd_gen(&mut rng, 0, String::from("abc")), "");
    assert_eq!(pwd_gen(&mut rng, 0, String::from(ALL)), "");
    assert_eq!(pwd_gen(&mut rng, -5, String::from("abc")), "");
    assert_eq!(pwd_gen(&mut rng, -5, String::new()), "");
}

#[test]
fn password_has_length_and_pool_characters() {
    let mut rng = rand::thread_rng();
    for n in 0..40isize {
        let p = pwd_gen(&mut rng, n, String::from("xyz"));
        assert_eq!(p.chars().count(), n as usize);
        assert!(p.chars().all(|c| "xyz".contains(c)));
    }
    let single = pwd_gen(&mut rng, 6, String::from("q"));
    assert_eq!(single, "qqqqqq");
}

#[test]
fn password_from_draws_picks_positions() {
    assert_eq!(pwd_from_draws(&vec![0, 2, 1, 2], "abc"), "acbc");
    assert_eq!(pwd_from_draws(&vec![], "abc"), "");
    let mut rng = rand::thread_rng();
    let d = draw_positions(&mut rng, 50, 7);
    assert_eq!(d.len(), 50);
    assert!(d.iter().all(|&x| x < 7));
    assert!(draw_positions(&mut rng, -2, 0).is_empty());
}

#[test]
fn class_table_entries() {
    assert_eq!(class_chars(0), "0123456789");
    assert_eq!(class_chars(3), "!@#$%^&*,.`~+-/?<>=");
    assert_eq!(class_tag_name(1), "alpha_lower");
    assert_eq!(class_tag_name(2), "alpha_upper");
}

#[test]
fn pool_and_tags_follow_flags() {
    assert_eq!(char_pool([true, true, true, true]), ALL);
    assert_eq!(char_pool([true, false, true, false]), "0123456789ABCDEFGHIJKLMNOPQRSTUVWXYZ");
    assert_eq!(char_pool([false, false, false, false]), "");
    assert_eq!(mode_tags([true, true, true, true]), "nums;alpha_lower;alpha_upper;special_chars;");
    assert_eq!(mode_tags([false, true, false, true]), "alpha_lower;special_chars;");
    assert_eq!(mode_tags([false, false, false, false]), "");
}

#[test]
fn length_tags_and_fallback() {
    assert_eq!(length_tag(0), "super_short");
    assert_eq!(length_tag(2), "medium");
    assert_eq!(length_tag(4), "super_long");
    assert_eq!(length_tag(-1), "Eggs Benedict");
    assert_eq!(length_tag(5), "Eggs Benedict");
}

#[test]
fn medium_with_every_class() {
    let settings = resolve_settings(Some("medium"), Some("15"), false);
    assert_eq!(settings.length_setting, 2);
    assert_eq!(settings.mode_num, 15);
    assert_eq!(settings.chars, ALL);
    assert_eq!(settings.length_tag, "medium");
    assert_eq!(settings.mode_abstr, "nums;alpha_lower;alpha_upper;special_chars;");
    let mut rng = rand::thread_rng();
    for _ in 0..50 {
        let (n, password) = generate_password(&mut rng, &settings);
        assert!((12..=15).contains(&n));
        assert_eq!(password.chars().count(), n as usize);
        assert!(password.chars().all(|c| ALL.contains(c)));
    }
}

#[test]
fn super_short_with_binary_mode() {
    let settings = resolve_settings(Some("ss"), Some("1010"), false);
    assert_eq!(settings.mode_num, 10);
    assert_eq!(settings.flags, [true, false, true, false]);
    assert_eq!(settings.chars, "0123456789ABCDEFGHIJKLMNOPQRSTUVWXYZ");
    assert_eq!(settings.mode_abstr, "nums;alpha_upper;");
    let mut rng = rand::thread_rng();
    for _ in 0..50 {
        let (n, password) = generate_password(&mut rng, &settings);
        assert!((4..=7).contains(&n));
        assert_eq!(password.chars().count(), n as usize);
        assert!(password.chars().all(|c| c.is_ascii_digit() || c.is_ascii_uppercase()));
    }
}

#[test]
fn defaults_and_invalid_options() {
    let settings = resolve_settings(None, None, false);
    assert_eq!(settings.length_setting, 2);
    assert_eq!(settings.mode_num, 15);
    assert_eq!(settings.chars, ALL);
    let bad = resolve_settings(Some("huge"), Some("abc"), false);
    assert_eq!(bad.length_setting, -1);
    assert_eq!(bad.length_tag, "Eggs Benedict");
    assert_eq!(bad.mode_num, -1);
    assert_eq!(bad.chars, ALL);
    let mut rng = rand::thread_rng();
    let (n, password) = generate_password(&mut rng, &bad);
    assert!((0..=3).contains(&n));
    assert_eq!(password.chars().count(), n as usize);
    let raw = resolve_settings(Some("10"), Some("1"), true);
    assert_eq!(raw.length_setting, 10);
    assert_eq!(raw.chars, "!@#$%^&*,.`~+-/?<>=");
    assert_eq!(raw.mode_abstr, "special_chars;");
}

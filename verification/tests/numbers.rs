use ladder_app::amount::{
    abs_u128, clamp_units, fixed_text, key_to_price, mul_amounts, parse_amount, price_to_key, sat_abs, sat_add,
    sat_mul, sat_sub, short_text, MAX_AMOUNT, ONE,
};
use ladder_app::text::{
    cat, contains, digit, join_fields, join_words, parse_u64, same_lower, same_text, split, starts_with,
    to_chars, trim, u64_text, Strip,
};

#[test]
fn plain_numbers_are_read() {
    assert_eq!(parse_amount("1.5"), Some(150_000_000));
    assert_eq!(parse_amount("-0.00000001"), Some(-1));
    assert_eq!(parse_amount("+3"), Some(3 * ONE));
    assert_eq!(parse_amount(".5"), Some(50_000_000));
    assert_eq!(parse_amount("5."), Some(5 * ONE));
    assert_eq!(parse_amount("0"), Some(0));
    assert_eq!(parse_amount("-0"), Some(0));
    assert_eq!(parse_amount("4321.0987"), Some(432_109_870_000));
}

#[test]
fn exponents_are_read() {
    assert_eq!(parse_amount("1e3"), Some(1000 * ONE));
    assert_eq!(parse_amount("1E-2"), Some(1_000_000));
    assert_eq!(parse_amount("2.5e+1"), Some(25 * ONE));
    assert_eq!(parse_amount("1e-7"), Some(10));
}

#[test]
fn what_is_no_number_is_refused() {
    for s in ["", "abc", ".", "1.2.3", "1e", "e5", "--1", "1 ", " 1", "0x10", "1_000", "inf", "NaN"] {
        assert_eq!(parse_amount(s), None, "{s}");
    }
}

#[test]
fn reading_rounds_to_the_nearest_unit() {
    assert_eq!(parse_amount("0.000000014"), Some(1));
    assert_eq!(parse_amount("0.000000015"), Some(2));
    assert_eq!(parse_amount("-0.000000015"), Some(-2));
}

#[test]
fn a_number_above_zero_never_becomes_zero() {
    assert_eq!(parse_amount("0.000000000001"), Some(1));
    assert_eq!(parse_amount("-1e-30"), Some(-1));
    assert_eq!(parse_amount("0e-30"), Some(0));
}

#[test]
fn a_number_that_is_too_large_is_the_largest() {
    assert_eq!(parse_amount("1e300"), Some(MAX_AMOUNT));
    assert_eq!(parse_amount("-1e300"), Some(-MAX_AMOUNT));
}

#[test]
fn fixed_decimals_round_away_from_zero() {
    assert_eq!(fixed_text(150_000_000, 2), "1.50");
    assert_eq!(fixed_text(-150_000_000, 0), "-2");
    assert_eq!(fixed_text(123_456_789, 4), "1.2346");
    assert_eq!(fixed_text(1, 8), "0.00000001");
    assert_eq!(fixed_text(0, 2), "0.00");
}

#[test]
fn short_text_has_no_trailing_zeros() {
    assert_eq!(short_text(150_000_000), "1.5");
    assert_eq!(short_text(300_000_000), "3");
    assert_eq!(short_text(-1), "-0.00000001");
    assert_eq!(short_text(0), "0");
}

#[test]
fn amounts_read_back_from_their_texts() {
    for a in [0, 1, -1, 99_999_999, 100_000_000, -123_456_789_012, 4_321 * ONE] {
        assert_eq!(parse_amount(&short_text(a)), Some(a));
        assert_eq!(parse_amount(&fixed_text(a, 8)), Some(a));
    }
}

#[test]
fn prices_become_keys_of_ten_thousandths() {
    assert_eq!(price_to_key(432_109_870_000), 43_210_987);
    assert_eq!(price_to_key(4_999), 0);
    assert_eq!(price_to_key(5_000), 1);
    assert_eq!(price_to_key(-5_000), -1);
    assert_eq!(price_to_key(MAX_AMOUNT), i64::MAX);
    assert_eq!(key_to_price(43_210_987), 432_109_870_000);
    for k in [-7, 0, 12_345] {
        assert_eq!(price_to_key(key_to_price(k)), k);
    }
}

#[test]
fn arithmetic_stays_in_range() {
    assert_eq!(sat_add(MAX_AMOUNT, 1), MAX_AMOUNT);
    assert_eq!(sat_sub(i128::MIN, 1), i128::MIN);
    assert_eq!(sat_mul(MAX_AMOUNT, 2), MAX_AMOUNT);
    assert_eq!(sat_mul(MAX_AMOUNT, -2), i128::MIN);
    assert_eq!(sat_abs(i128::MIN), MAX_AMOUNT);
    assert_eq!(abs_u128(-5), 5);
    assert_eq!(mul_amounts(150_000_000, 200_000_000), 300_000_000);
    assert_eq!(clamp_units(5, 10, 20), 10);
    assert_eq!(clamp_units(25, 10, 20), 20);
    assert_eq!(clamp_units(15, 10, 20), 15);
}

#[test]
fn text_is_split_and_joined() {
    assert_eq!(split("a,,b", ','), vec!["a", "", "b"]);
    assert_eq!(split("", ','), vec![""]);
    let f = vec!["1".to_string(), "x y".to_string(), "".to_string()];
    assert_eq!(join_fields(&f), "1,x y,");
    assert_eq!(split(&join_fields(&f), ','), f);
    assert_eq!(cat(&vec!["a", "", "bc"]), "abc");
}

#[test]
fn text_is_trimmed() {
    assert_eq!(trim(Strip::Space, " \t a b \u{2003}\n"), "a b");
    assert_eq!(trim(Strip::Quote, "\"ETH-USD\""), "ETH-USD");
    assert_eq!(trim(Strip::Space, "   "), "");
}

#[test]
fn words_are_joined_by_one_blank() {
    assert_eq!(join_words("  one\ttwo \n three "), "one two three");
    assert_eq!(join_words(" "), "");
    assert_eq!(join_words("solo"), "solo");
}

#[test]
fn integers_are_read() {
    assert_eq!(parse_u64("18446744073709551615"), Some(u64::MAX));
    assert_eq!(parse_u64("18446744073709551616"), None);
    assert_eq!(parse_u64("+7"), Some(7));
    assert_eq!(parse_u64("-7"), None);
    assert_eq!(parse_u64(""), None);
    assert_eq!(parse_u64("+"), None);
    assert_eq!(parse_u64("007"), Some(7));
    assert_eq!(u64_text(0), "0");
    assert_eq!(parse_u64(&u64_text(u64::MAX)), Some(u64::MAX));
    assert_eq!(digit('7'), Some(7));
    assert_eq!(digit('x'), None);
}

#[test]
fn texts_are_compared() {
    assert!(same_text("abc", "abc"));
    assert!(!same_text("abc", "abd"));
    assert!(same_lower("BiD", "bid"));
    assert!(!same_lower("bids", "bid"));
    assert!(starts_with("buy_limit", "buy"));
    assert!(!starts_with("bu", "buy"));
    assert!(contains("sell_limit", "limit"));
    assert!(!contains("sell", "limit"));
    assert!(contains("x", ""));
    assert_eq!(to_chars("a\u{e9}"), vec!['a', '\u{e9}']);
}

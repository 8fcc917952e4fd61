//! Answer-processing rules: trimming, default substitution, boolean
//! keywords, integer parsing.

use termprompt::text::{
    classify_bool, parse_i32, parse_i64, parse_u32, parse_u64, parse_usize, resolve_input, trimmed,
};

#[test]
fn bool_true_keywords() {
    for w in ["y", "Y", "yes", "YES", "t", "true", "TRUE", "tRuE"] {
        assert_eq!(classify_bool(w), Some(true), "{}", w);
    }
}

#[test]
fn bool_false_keywords() {
    for w in ["n", "N", "no", "NO", "f", "false", "FALSE"] {
        assert_eq!(classify_bool(w), Some(false), "{}", w);
    }
}

#[test]
fn bool_rejects_everything_else() {
    for w in ["bogus", "", "yess", "ja", "0", "1", "tr ue", "y ", "42"] {
        assert_eq!(classify_bool(w), None, "{:?}", w);
    }
}

#[test]
fn trim_both_ends() {
    assert_eq!(trimmed(" hello "), "hello");
    assert_eq!(trimmed("\t hi\r\n"), "hi");
    assert_eq!(trimmed("  "), "");
    assert_eq!(trimmed(""), "");
    assert_eq!(trimmed("a b"), "a b");
    assert_eq!(trimmed("\u{00A0}x\u{3000}"), "x");
}

#[test]
fn resolve_trims_and_substitutes() {
    let none: Option<String> = None;
    let some = Some(String::from("42"));
    assert_eq!(resolve_input(&none, " hello "), "hello");
    assert_eq!(resolve_input(&none, "  "), "");
    assert_eq!(resolve_input(&some, ""), "42");
    assert_eq!(resolve_input(&some, "   "), "42");
    assert_eq!(resolve_input(&some, " x "), "x");
}

#[test]
fn parse_plain_and_signed() {
    assert_eq!(parse_i64("7"), Some(7));
    assert_eq!(parse_i64("-3"), Some(-3));
    assert_eq!(parse_i64("+5"), Some(5));
    assert_eq!(parse_i64("007"), Some(7));
    assert_eq!(parse_i64("0"), Some(0));
}

#[test]
fn parse_rejects_non_numbers() {
    for w in ["seven", "", "-", "+", "1.5", "1e3", " 7", "7 ", "--3", "0x10"] {
        assert_eq!(parse_i64(w), None, "{:?}", w);
    }
}

#[test]
fn parse_at_the_edges_of_the_type() {
    assert_eq!(parse_i64("9223372036854775807"), Some(i64::MAX));
    assert_eq!(parse_i64("-9223372036854775808"), Some(i64::MIN));
    assert_eq!(parse_i64("9223372036854775808"), None);
    assert_eq!(parse_i64("-9223372036854775809"), None);
    assert_eq!(parse_i64("99999999999999999999999999999999"), None);
    assert_eq!(parse_i64("-0000000000000000000000000000001"), Some(-1));
}

#[test]
fn parse_unsigned_grammar() {
    assert_eq!(parse_u64("7"), Some(7));
    assert_eq!(parse_u64("+7"), Some(7));
    assert_eq!(parse_u64("-3"), None);
    assert_eq!(parse_u64("18446744073709551615"), Some(u64::MAX));
    assert_eq!(parse_u64("18446744073709551616"), None);
    assert_eq!(parse_u64(""), None);
    assert_eq!(parse_u64("+"), None);
}

#[test]
fn parse_narrow_types_hold_their_ranges() {
    assert_eq!(parse_i32("2147483647"), Some(i32::MAX));
    assert_eq!(parse_i32("2147483648"), None);
    assert_eq!(parse_i32("-2147483648"), Some(i32::MIN));
    assert_eq!(parse_i32("-2147483649"), None);
    assert_eq!(parse_u32("4294967295"), Some(u32::MAX));
    assert_eq!(parse_u32("4294967296"), None);
    assert_eq!(parse_usize("42"), Some(42));
    assert_eq!(parse_usize("-1"), None);
}

#[test]
fn parse_unsigned_matches_std() {
    for w in [
        "7", "+7", "-3", "007", "", "+", "word", "18446744073709551615",
        "18446744073709551616", "4294967295", "4294967296",
    ] {
        assert_eq!(parse_u64(w), w.parse::<u64>().ok(), "{:?}", w);
        assert_eq!(parse_u32(w), w.parse::<u32>().ok(), "{:?}", w);
        assert_eq!(parse_usize(w), w.parse::<usize>().ok(), "{:?}", w);
        assert_eq!(parse_i32(w), w.parse::<i32>().ok(), "{:?}", w);
    }
}

// The read loop resolves each line and asks again until the validator
// accepts one; scripting its decision chain over a fixed sequence of raw
// lines shows one rejection before "y" is read as true.
#[test]
fn scripted_bool_bogus_then_y() {
    let no_default: Option<String> = None;
    let mut rejections = 0;
    let mut outcome = None;
    for raw in ["bogus", "y"] {
        let resolved = resolve_input(&no_default, raw);
        match classify_bool(&resolved) {
            Some(b) => {
                outcome = Some(b);
                break;
            }
            None => rejections += 1,
        }
    }
    assert_eq!(outcome, Some(true));
    assert_eq!(rejections, 1);
}

#[test]
fn parse_matches_std() {
    for w in [
        "7", "-3", "+5", "007", "", "-", "+", "seven", "9223372036854775807",
        "-9223372036854775808", "9223372036854775808", "-9223372036854775809",
    ] {
        assert_eq!(parse_i64(w), w.parse::<i64>().ok(), "{:?}", w);
    }
}

use dungeon::text::{bool_to_text, has_prefix, i64_to_decimal, trim_text, u64_to_decimal};

#[test]
fn decimal_of_unsigned() {
    assert_eq!(u64_to_decimal(0), "0");
    assert_eq!(u64_to_decimal(7), "7");
    assert_eq!(u64_to_decimal(1234), "1234");
    assert_eq!(u64_to_decimal(u64::MAX), u64::MAX.to_string());
}

#[test]
fn decimal_of_signed() {
    assert_eq!(i64_to_decimal(0), "0");
    assert_eq!(i64_to_decimal(-5), "-5");
    assert_eq!(i64_to_decimal(250), "250");
    assert_eq!(i64_to_decimal(i64::MIN), "-9223372036854775808");
    assert_eq!(i64_to_decimal(i64::MAX), "9223372036854775807");
}

#[test]
fn booleans_as_text() {
    assert_eq!(bool_to_text(true), "true");
    assert_eq!(bool_to_text(false), "false");
}

#[test]
fn trimming_matches_std() {
    for s in ["  127.0.0.1:7777\n", "abc", "", "   ", "\t x y \r\n", "\u{3000}логін\u{2003}", "\u{85}a\u{a0}"] {
        assert_eq!(trim_text(s), s.trim());
    }
    assert_eq!(trim_text(" a b "), "a b");
}

#[test]
fn prefixes() {
    assert!(has_prefix("player_bob", "player"));
    assert!(has_prefix("player", "player"));
    assert!(has_prefix("anything", ""));
    assert!(!has_prefix("play", "player"));
    assert!(!has_prefix("item_1", "player"));
    assert!(has_prefix("гравець", "гра"));
}

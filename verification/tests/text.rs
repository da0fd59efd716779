use antinuke::number::{
    decimal_text, parse_i64, parse_nat, signed_text,
};
use antinuke::text::{
    chars_of, contains, ends_with, join_from, lists, matches_at, same, split_words, starts_with,
    text_of,
};

fn list(items: &[&str]) -> Vec<String> {
    items.iter().map(|s| s.to_string()).collect()
}

#[test]
fn numbers_are_written_in_decimal() {
    assert_eq!(decimal_text(0), "0");
    assert_eq!(decimal_text(7), "7");
    assert_eq!(decimal_text(10), "10");
    assert_eq!(decimal_text(u128::MAX), u128::MAX.to_string());
    assert_eq!(signed_text(-1), "-1");
    assert_eq!(signed_text(i64::MIN), i64::MIN.to_string());
    assert_eq!(signed_text(i64::MAX), i64::MAX.to_string());
}

#[test]
fn numbers_are_read_as_the_standard_library_reads_them() {
    for text in ["0", "7", "100", "101", "+5", "-5", "", "+", "1a", " 1", "007", "18446744073709551615", "18446744073709551616"] {
        assert_eq!(parse_nat(text, u64::MAX), text.parse::<u64>().ok(), "{}", text);
        assert_eq!(parse_i64(text), text.parse::<i64>().ok(), "{}", text);
    }
    assert_eq!(parse_nat("101", 100), None);
    assert_eq!(parse_nat("100", 100), Some(100));
    assert_eq!(parse_i64("-9223372036854775808"), Some(i64::MIN));
    assert_eq!(parse_i64("-9223372036854775809"), None);
    assert_eq!(parse_i64("9223372036854775808"), None);
}

#[test]
fn written_numbers_are_read_back() {
    for n in [0u64, 9, 10, 99, 12_345, u64::MAX] {
        assert_eq!(parse_nat(&decimal_text(n as u128), u64::MAX), Some(n));
    }
    for n in [0i64, -1, 42, i64::MIN, i64::MAX] {
        assert_eq!(parse_i64(&signed_text(n)), Some(n));
    }
}

#[test]
fn words_are_runs_without_white_space() {
    let text = "\u{a0}one  two\tthree\u{3000}four\n";
    let words: Vec<String> = text.split_whitespace().map(|w| w.to_string()).collect();
    assert_eq!(split_words(text), words);
    assert_eq!(split_words(""), list(&[]));
    assert_eq!(split_words("   "), list(&[]));
}

#[test]
fn white_space_is_that_of_unicode() {
    for n in 0u32..0x11_0000 {
        if let Some(c) = char::from_u32(n) {
            if n < 0x4000 || n % 0x101 == 0 {
                let text = format!("a{}b", c);
                let pieces = text.split_whitespace().count();
                assert_eq!(split_words(&text).len(), pieces, "{:x}", n);
            }
        }
    }
}

#[test]
fn texts_are_joined_from_a_position_on() {
    let words = list(&["a", "b", "c"]);
    assert_eq!(join_from(&words, 0, ", "), "a, b, c");
    assert_eq!(join_from(&words, 1, " "), "b c");
    assert_eq!(join_from(&words, 3, " "), "");
}

#[test]
fn texts_are_searched() {
    assert!(contains("a spam b", "spam"));
    assert!(!contains("spa", "spam"));
    assert!(contains("anything", ""));
    assert!(contains("spam", "spam"));
    assert!(starts_with("nullping", "null"));
    assert!(!starts_with("nul", "null"));
    assert!(ends_with("a.gif", ".gif"));
    assert!(!ends_with("a.gifs", ".gif"));
    assert!(same("ä", "ä"));
    assert!(!same("ä", "a"));
    assert!(lists(&list(&["x", "y"]), "y"));
    assert!(!lists(&list(&["x", "y"]), "z"));
}

#[test]
fn characters_and_texts_turn_into_each_other() {
    let chars = chars_of("añ😀");
    assert_eq!(chars, vec!['a', 'ñ', '😀']);
    assert_eq!(text_of(&chars, 1, 3), "ñ😀");
    assert!(matches_at(&chars, &vec!['ñ'], 1));
    assert!(!matches_at(&chars, &vec!['ñ'], 3));
}

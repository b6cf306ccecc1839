//! Tests of the text and number helpers.

use rust_hft_client::number::{push_decimal, read_unsigned};
use rust_hft_client::text::{
    char_ascii_lower, char_is_space, find, same_ignoring_ascii_case, slice, split_on, to_chars,
    to_text, trimmed,
};

fn chars(s: &str) -> Vec<char> {
    s.chars().collect()
}

fn text(v: &[char]) -> String {
    v.iter().collect()
}

#[test]
fn chars_and_text_are_inverse() {
    for s in ["", "abc", "é€😀", " a b "] {
        assert_eq!(to_chars(s), chars(s));
        assert_eq!(to_text(&chars(s)), s);
    }
}

#[test]
fn slice_copies_a_range() {
    let v = chars("hello");
    assert_eq!(slice(&v, 1, 4), chars("ell"));
    assert_eq!(slice(&v, 0, 5), v);
    assert_eq!(slice(&v, 2, 2), chars(""));
}

#[test]
fn white_space_is_what_the_standard_library_says() {
    let mut code = 0u32;
    while code <= 0x3100 {
        if let Some(c) = char::from_u32(code) {
            assert_eq!(char_is_space(c), c.is_whitespace(), "U+{:04X}", code);
        }
        code += 1;
    }
    assert!(!char_is_space('\u{feff}'));
    assert!(!char_is_space('\u{10ffff}'));
}

#[test]
fn trimmed_agrees_with_the_standard_library() {
    for s in ["", " ", "a", "  a b  ", "\t\r\nx\u{a0}\u{3000}", "\u{2003}", "x ", " x", "a\u{200b}"] {
        assert_eq!(text(&trimmed(&chars(s))), s.trim(), "{:?}", s);
    }
}

#[test]
fn find_gives_the_first_place() {
    assert_eq!(find(&chars("a=b=c"), '='), Some(1));
    assert_eq!(find(&chars("=ab"), '='), Some(0));
    assert_eq!(find(&chars("ab="), '='), Some(2));
    assert_eq!(find(&chars("abc"), '='), None);
    assert_eq!(find(&chars(""), '='), None);
}

#[test]
fn split_agrees_with_the_standard_library() {
    for s in ["", ",", "a", "a,b", ",a,,b,", "a,b,c,d", ",,"] {
        let pieces: Vec<String> = split_on(&chars(s), ',').iter().map(|p| text(p)).collect();
        let expected: Vec<String> = s.split(',').map(|p| p.to_string()).collect();
        assert_eq!(pieces, expected, "{:?}", s);
    }
}

#[test]
fn ascii_case_is_folded_for_letters_only() {
    assert_eq!(char_ascii_lower('A'), 'a');
    assert_eq!(char_ascii_lower('Z'), 'z');
    assert_eq!(char_ascii_lower('a'), 'a');
    assert_eq!(char_ascii_lower('@'), '@');
    assert_eq!(char_ascii_lower('['), '[');
    assert_eq!(char_ascii_lower('É'), 'É');
    for (a, b) in [("true", "TRUE"), ("TrUe", "tRuE"), ("", ""), ("a1-", "A1-")] {
        assert!(same_ignoring_ascii_case(&chars(a), &chars(b)));
        assert_eq!(a.eq_ignore_ascii_case(b), true);
    }
    for (a, b) in [("true", "tru"), ("true", "truf"), ("é", "É"), ("a", "")] {
        assert!(!same_ignoring_ascii_case(&chars(a), &chars(b)));
        assert_eq!(a.eq_ignore_ascii_case(b), false);
    }
}

#[test]
fn read_unsigned_agrees_with_the_standard_library() {
    let samples = [
        "0", "1", "9", "10", "255", "256", "65535", "65536", "007", "+7", "+", "", "-", "-0", "-7", "++7", "+-7",
        " 7", "7 ", "7a", "a7", "1_000", "1e3", "0x1f", "18446744073709551615", "18446744073709551616",
        "99999999999999999999999999999", "00000000000000000000000000001", "٣",
    ];
    for s in samples {
        assert_eq!(read_unsigned(&chars(s), u8::MAX as u64), s.parse::<u8>().ok().map(u64::from), "{:?}", s);
        assert_eq!(read_unsigned(&chars(s), u16::MAX as u64), s.parse::<u16>().ok().map(u64::from), "{:?}", s);
        assert_eq!(read_unsigned(&chars(s), u32::MAX as u64), s.parse::<u32>().ok().map(u64::from), "{:?}", s);
        assert_eq!(read_unsigned(&chars(s), u64::MAX), s.parse::<u64>().ok(), "{:?}", s);
    }
    assert_eq!(read_unsigned(&chars("3"), 2), None);
    assert_eq!(read_unsigned(&chars("2"), 2), Some(2));
    assert_eq!(read_unsigned(&chars("0"), 0), Some(0));
}

#[test]
fn push_decimal_agrees_with_the_standard_library() {
    for n in [0u64, 1, 9, 10, 11, 99, 100, 101, 12345, 4294967295, u64::MAX] {
        let mut out = String::from("n=");
        push_decimal(&mut out, n);
        assert_eq!(out, format!("n={}", n));
    }
}

use rag::helper::helper::is_option_has_string_value;
use rag::helper::text::{char_byte_len, is_whitespace_char, push_decimal, str_is_blank, utf8_len_within};

#[test]
fn whitespace_test_agrees_with_std_on_every_char() {
    for u in 0u32..=0x10FFFF {
        if let Some(c) = char::from_u32(u) {
            assert_eq!(is_whitespace_char(c), c.is_whitespace(), "U+{:04X}", u);
        }
    }
}

#[test]
fn blank_text_is_what_trim_empties() {
    let cases = ["", " ", "\t\n\r ", "\u{3000}\u{a0}", " a ", "abc", "\u{200b}", "\u{85}"];
    for s in cases {
        assert_eq!(str_is_blank(s), s.trim().is_empty(), "{:?}", s);
    }
}

#[test]
fn option_has_string_value_cases() {
    assert!(!is_option_has_string_value(&None));
    assert!(!is_option_has_string_value(&Some(String::new())));
    assert!(!is_option_has_string_value(&Some("   \n".to_string())));
    assert!(is_option_has_string_value(&Some(" x ".to_string())));
    assert!(is_option_has_string_value(&Some("hello".to_string())));
}

#[test]
fn char_byte_len_matches_len_utf8() {
    for c in ['a', '\u{7f}', '\u{80}', 'é', '\u{7ff}', '\u{800}', '€', '\u{ffff}', '\u{10000}', '😀'] {
        assert_eq!(char_byte_len(c), c.len_utf8(), "{:?}", c);
    }
}

#[test]
fn utf8_len_within_cap() {
    assert_eq!(utf8_len_within("héllo", 6), Some(6));
    assert_eq!(utf8_len_within("héllo", 10), Some(6));
    assert_eq!(utf8_len_within("héllo", 5), None);
    assert_eq!(utf8_len_within("", 0), Some(0));
    assert_eq!(utf8_len_within("😀", 3), None);
}

#[test]
fn push_decimal_writes_display_form() {
    for n in [0usize, 7, 10, 42, 909, 1_000_000, usize::MAX] {
        let mut s = String::from("n=");
        push_decimal(&mut s, n);
        assert_eq!(s, format!("n={}", n));
    }
}

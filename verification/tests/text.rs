use ffwebapps::text::{
    chars_of, contains_text, decimal, fill, is_whitespace, parse_i32, parse_u32, same_text,
    signed_decimal, trim,
};

#[test]
fn white_space_is_what_unicode_says() {
    for code in 0..=0x10FFFFu32 {
        if let Some(c) = char::from_u32(code) {
            assert_eq!(is_whitespace(c), c.is_whitespace(), "{code:x}");
        }
    }
}

#[test]
fn trimming_takes_white_space_from_both_ends() {
    for text in ["", " ", "\n\t", "12", "  12\n", "\u{3000}a b\u{2028}", "a\u{200b}", "ü "] {
        assert_eq!(trim(text), text.trim());
    }
}

#[test]
fn texts_are_compared_by_their_characters() {
    assert!(same_text("", ""));
    assert!(same_text("grün", "grün"));
    assert!(!same_text("a", "A"));
    assert!(!same_text("a", "a "));
}

#[test]
fn a_text_is_found_among_others() {
    let texts = vec!["a".to_string(), "bc".to_string()];
    assert!(contains_text(&texts, "bc"));
    assert!(!contains_text(&texts, "b"));
    assert!(!contains_text(&vec![], ""));
}

#[test]
fn characters_come_in_order() {
    assert_eq!(chars_of("aü€"), vec!['a', 'ü', '€']);
}

const NUMBERS: [&str; 26] = [
    "", "+", "-", "0", "-0", "+0", "7", "+7", "-7", "007", "42", "4294967295", "4294967296",
    "2147483647", "2147483648", "-2147483648", "-2147483649", "99999999999999999999", "1 ", " 1",
    "1_0", "0x1", "++1", "-+1", "٣", "12a",
];

#[test]
fn unsigned_numbers_are_read_as_usual() {
    for text in NUMBERS {
        assert_eq!(parse_u32(text), text.parse::<u32>().ok(), "{text}");
    }
}

#[test]
fn signed_numbers_are_read_as_usual() {
    for text in NUMBERS {
        assert_eq!(parse_i32(text), text.parse::<i32>().ok(), "{text}");
    }
}

#[test]
fn numbers_are_written_as_usual() {
    for n in [0, 9, 10, 99, 100, 4242, u32::MAX] {
        assert_eq!(decimal(n), n.to_string());
    }
    for n in [0, 1, -1, -10, i32::MAX, i32::MIN] {
        assert_eq!(signed_decimal(n), n.to_string());
    }
}

#[test]
fn a_number_survives_being_written_and_read() {
    for n in [0, 5, 1_000_000, u32::MAX] {
        let padded = format!(" {}\n", decimal(n));
        assert_eq!(parse_u32(trim(&padded)), Some(n));
    }
}

#[test]
fn only_the_first_placeholder_is_filled() {
    for (template, value) in [
        ("https://a/?u=%s", "x"),
        ("%s%s", "1"),
        ("none", "x"),
        ("", "x"),
        ("%", "x"),
        ("%%s", "%s"),
        ("ü%s€", ""),
        ("a%s", "long value"),
    ] {
        assert_eq!(fill(template, value), template.replacen("%s", value, 1));
    }
}

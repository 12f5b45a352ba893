use identity_habit::text::{chars_of, decimal_text, join_text, natural_text, whitespace};

#[test]
fn decimal_text_writes_numerals() {
    assert_eq!(decimal_text(0), "0");
    assert_eq!(decimal_text(7), "7");
    assert_eq!(decimal_text(10), "10");
    assert_eq!(decimal_text(-3), "-3");
    assert_eq!(decimal_text(1234567890), "1234567890");
    assert_eq!(decimal_text(i64::MAX), "9223372036854775807");
    assert_eq!(decimal_text(i64::MIN), "-9223372036854775808");
}

#[test]
fn natural_text_writes_numerals() {
    assert_eq!(natural_text(0), "0");
    assert_eq!(natural_text(9), "9");
    assert_eq!(natural_text(100), "100");
    assert_eq!(natural_text(u64::MAX), "18446744073709551615");
}

#[test]
fn join_text_puts_the_separator_between_neighbours() {
    let none: Vec<String> = Vec::new();
    assert_eq!(join_text(&none, ", "), "");
    assert_eq!(join_text(&vec!["calm".to_string()], ", "), "calm");
    assert_eq!(
        join_text(&vec!["calm".to_string(), "kind".to_string(), "brave".to_string()], ", "),
        "calm, kind, brave"
    );
    assert_eq!(join_text(&vec!["".to_string(), "a".to_string()], "-"), "-a");
}

#[test]
fn whitespace_is_the_unicode_property() {
    for c in [' ', '\t', '\n', '\r', '\u{b}', '\u{c}', '\u{85}', '\u{a0}', '\u{1680}', '\u{2000}',
        '\u{200a}', '\u{2028}', '\u{2029}', '\u{202f}', '\u{205f}', '\u{3000}']
    {
        assert!(whitespace(c));
    }
    for c in ['a', '`', '{', '0', '\u{200b}', '\u{feff}', '\u{8}', '\u{e}'] {
        assert!(!whitespace(c));
    }
}

#[test]
fn whitespace_agrees_with_std_for_every_char() {
    let mut code: u32 = 0;
    while code <= 0x10ffff {
        if let Some(c) = char::from_u32(code) {
            assert_eq!(whitespace(c), c.is_whitespace());
        }
        code += 1;
    }
}

#[test]
fn chars_of_gives_the_characters_in_order() {
    assert_eq!(chars_of(""), Vec::<char>::new());
    assert_eq!(chars_of("a`é\n"), vec!['a', '`', 'é', '\n']);
}

use golem_wordle::text::{is_whitespace, join_lines, push_decimal, push_line};

fn decimal_string(n: usize) -> String {
    let mut text = String::new();
    push_decimal(&mut text, n);
    text
}

#[test]
fn decimal_string_should_print_without_leading_zeros() {
    assert_eq!(decimal_string(0), "0");
    assert_eq!(decimal_string(7), "7");
    assert_eq!(decimal_string(10), "10");
    assert_eq!(decimal_string(109), "109");
    assert_eq!(decimal_string(12_345), "12345");
    assert_eq!(decimal_string(usize::MAX), usize::MAX.to_string());
}

#[test]
fn push_decimal_should_append_to_what_is_there() {
    let mut text = "n = ".to_string();

    push_decimal(&mut text, 420);

    assert_eq!(text, "n = 420");
}

#[test]
fn join_lines_should_put_a_line_feed_between_lines() {
    assert_eq!(join_lines(&vec![]), "");
    assert_eq!(join_lines(&vec!["one".to_string()]), "one");
    assert_eq!(
        join_lines(&vec!["one".to_string(), "".to_string(), "three".to_string()]),
        "one\n\nthree"
    );
}

#[test]
fn push_line_should_append_the_line() {
    let mut lines = vec!["one".to_string()];

    push_line(&mut lines, "two".to_string());

    assert_eq!(lines, vec!["one", "two"]);
}

#[test]
fn decimal_string_should_agree_with_the_standard_formatting() {
    for n in 0..2_000usize {
        assert_eq!(decimal_string(n), n.to_string());
    }
    for shift in 0..usize::BITS {
        let n = 1usize << shift;
        assert_eq!(decimal_string(n), n.to_string());
        assert_eq!(decimal_string(n - 1), (n - 1).to_string());
    }
}

#[test]
fn is_whitespace_should_agree_with_the_standard_test_on_every_character() {
    for code in 0..=0x10FFFFu32 {
        if let Some(c) = char::from_u32(code) {
            assert_eq!(is_whitespace(c), c.is_whitespace(), "{:#x}", code);
        }
    }
}

#[test]
fn is_whitespace_should_hold_of_tabs_and_line_ends() {
    for c in ['\t', '\n', '\u{b}', '\u{c}', '\r', ' ', '\u{85}', '\u{a0}', '\u{3000}'] {
        assert!(is_whitespace(c));
    }
    for c in ['a', '_', '\u{8}', '\u{e}', '\u{1f}', '\u{200b}', '\u{feff}'] {
        assert!(!is_whitespace(c));
    }
}

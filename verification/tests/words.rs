use golem_wordle::app_error::AppError;
use golem_wordle::words::{char_map_from, pick_word, word_at, words_from, words_in, CharMap};
use std::collections::{HashMap, HashSet};

fn entry(c: char, positions: &[usize]) -> (u32, HashSet<usize>) {
    (c as u32, positions.iter().copied().collect())
}

#[test]
fn char_map_from_should_produce_char_map_from_string() {
    let expected: CharMap = HashMap::from([
        entry('H', &[0]),
        entry('e', &[1]),
        entry('l', &[2, 3]),
        entry('o', &[4]),
    ]);

    assert_eq!(char_map_from("Hello"), expected);
}

#[test]
fn char_map_from_should_turn_an_empty_string_into_an_empty_map() {
    assert_eq!(char_map_from(""), HashMap::new());
}

#[test]
fn char_map_from_should_file_all_spaces_under_one_entry() {
    let expected: CharMap = HashMap::from([entry(' ', &[0, 1, 2])]);

    assert_eq!(char_map_from("   "), expected);
}

#[test]
fn char_map_from_should_count_positions_in_characters() {
    let expected: CharMap = HashMap::from([
        entry('ż', &[0, 4]),
        entry('ó', &[1]),
        entry('ł', &[2]),
        entry('w', &[3]),
    ]);

    assert_eq!(char_map_from("żółwż"), expected);
}

const GOLEM_IS_INVINCIBLE: &[&str] = &["golem", "is", "invincible"];

#[test]
fn words_from_should_produce_word_vec_from_byte_array() {
    assert_eq!(words_from("Hello".as_bytes()).unwrap(), vec!["hello"]);
    assert_eq!(
        words_from("golem is invincible".as_bytes()).unwrap(),
        GOLEM_IS_INVINCIBLE
    );
    assert_eq!(
        words_from(" golem     is \n invincible ".as_bytes()).unwrap(),
        GOLEM_IS_INVINCIBLE
    );
    assert_eq!(
        words_from("    golem   \n    is \n invincible ".as_bytes()).unwrap(),
        GOLEM_IS_INVINCIBLE
    );
}

#[test]
fn words_from_should_fail_when_input_byte_array_contains_no_words() {
    for input in ["        ", "    \n     \n  ", "", "\r\n", "\n"] {
        assert_eq!(words_from(input.as_bytes()), Err(AppError::NoWords));
    }
}

#[test]
fn words_from_should_fail_when_input_byte_array_contains_invalid_charset() {
    assert_eq!(words_from(b"cl\x82ippy"), Err(AppError::InvalidCharset));
    assert_eq!(words_from(b"\xff"), Err(AppError::InvalidCharset));
}

#[test]
fn words_from_should_lower_the_case_of_every_word() {
    assert_eq!(
        words_from("GOLEM Żółw\nÉtÉ".as_bytes()).unwrap(),
        vec!["golem", "żółw", "été"]
    );
}

#[test]
fn words_in_should_split_at_every_white_space() {
    assert_eq!(words_in("a\tb c"), vec!["a", "b", "c"]);
    assert_eq!(words_in("golem\tis"), vec!["golem", "is"]);
    assert_eq!(words_in("one\r\ntwo\nthree"), vec!["one", "two", "three"]);
    assert_eq!(words_in("one \r\n two"), vec!["one", "two"]);
    assert_eq!(words_in("a\rb"), vec!["a", "b"]);
    assert_eq!(words_in("a\r"), vec!["a"]);
    assert_eq!(words_in("a\r\r\nb"), vec!["a", "b"]);
    assert_eq!(words_in("a\u{a0}b\u{3000}c\u{2028}d"), vec!["a", "b", "c", "d"]);
    assert_eq!(words_in("a\u{200b}b"), vec!["a\u{200b}b"]);
    assert_eq!(words_in("\r\n\r\n"), Vec::<String>::new());
    assert_eq!(words_in("\t\u{b}\u{c}\u{85}"), Vec::<String>::new());
    assert_eq!(words_in("x"), vec!["x"]);
    assert_eq!(words_in(" x"), vec!["x"]);
    assert_eq!(words_in("x "), vec!["x"]);
}

#[test]
fn words_from_should_split_at_a_tab() {
    assert_eq!(words_from(b"golem\tis").unwrap(), vec!["golem", "is"]);
    assert_eq!(words_from(b"Golem\t\tIS\r\n").unwrap(), vec!["golem", "is"]);
    assert_eq!(words_from(b"\t\r\n"), Err(AppError::NoWords));
}

#[test]
fn words_in_should_agree_with_lines_and_split() {
    for text in [
        "golem is\r\ninvincible \n\n and  so on",
        "\r\n a \n b\r\n",
        "",
        "no-break",
    ] {
        let expected: Vec<String> = text
            .lines()
            .flat_map(|l| l.split(' '))
            .filter(|s| !s.is_empty())
            .map(|s| s.to_string())
            .collect();

        assert_eq!(words_in(text), expected);
    }
}

fn word_list() -> Vec<String> {
    vec!["golem".to_string(), "is".to_string(), "invincible".to_string()]
}

#[test]
fn word_at_should_return_the_word_at_the_index() {
    let words = word_list();

    assert_eq!(word_at(&words, 0), Ok("golem"));
    assert_eq!(word_at(&words, 2), Ok("invincible"));
    assert_eq!(word_at(&words, 3), Err(AppError::NoWords));
    assert_eq!(word_at(&Vec::new(), 0), Err(AppError::NoWords));
}

#[test]
fn pick_word_should_pick_a_word_of_the_list() {
    let words = word_list();

    for _ in 0..100 {
        let picked = pick_word(&words).unwrap();

        assert!(words.iter().any(|word| word == picked));
    }
}

#[test]
fn pick_word_should_pick_the_only_word_of_a_list_of_one() {
    let words = vec!["golem".to_string()];

    assert_eq!(pick_word(&words), Ok("golem"));
}

#[test]
fn pick_word_should_fail_on_an_empty_list() {
    assert_eq!(pick_word(&Vec::new()), Err(AppError::NoWords));
}

fn texts_over(alphabet: &[char], max_len: usize) -> Vec<String> {
    let mut texts = vec![String::new()];
    let mut last = vec![String::new()];
    for _ in 0..max_len {
        let mut next = Vec::new();
        for text in &last {
            for c in alphabet {
                let mut longer = text.clone();
                longer.push(*c);
                next.push(longer);
            }
        }
        texts.extend(next.iter().cloned());
        last = next;
    }
    texts
}

#[test]
fn words_in_should_agree_with_lines_and_split_on_every_short_text() {
    for text in texts_over(&['a', 'b', ' ', '\n'], 6) {
        let expected: Vec<String> = text
            .lines()
            .flat_map(|l| l.split(' '))
            .filter(|s| !s.is_empty())
            .map(|s| s.to_string())
            .collect();

        assert_eq!(words_in(&text), expected, "{:?}", text);
    }
}

#[test]
fn words_in_should_agree_with_split_whitespace_on_every_short_text() {
    let alphabet = ['a', ' ', '\n', '\r', '\t', '\u{a0}', '\u{2003}', '\u{200b}'];

    for text in texts_over(&alphabet, 5) {
        let expected: Vec<String> = text.split_whitespace().map(|s| s.to_string()).collect();

        assert_eq!(words_in(&text), expected, "{:?}", text);
    }
}

#[test]
fn char_map_from_should_hold_every_position_under_its_character() {
    for text in texts_over(&['a', 'b', 'ż'], 5) {
        let map = char_map_from(&text);
        let chars: Vec<char> = text.chars().collect();

        let filed: usize = map.values().map(|positions| positions.len()).sum();
        assert_eq!(filed, chars.len());
        for (i, c) in chars.iter().enumerate() {
            assert!(map[&(*c as u32)].contains(&i));
        }
        for (key, positions) in &map {
            for p in positions {
                assert_eq!(chars[*p] as u32, *key);
            }
        }
    }
}

use chrono::{DateTime, Datelike, TimeZone, Utc};
use golem_wordle::char_result::CharResult;
use golem_wordle::clock::{Clock, RealClock, Timestamp};
use golem_wordle::game_state::{GameState, GAME_INSTRUCTION};
use golem_wordle::words::char_map_from;
use std::cell::Cell;
use std::collections::HashSet;

fn test_date_time() -> Timestamp {
    let time = Utc.with_ymd_and_hms(2312, 12, 18, 19, 23, 0).unwrap();
    Timestamp::new(time.timestamp(), time.timestamp_subsec_nanos()).unwrap()
}

fn year_of(stamp: Timestamp) -> i32 {
    DateTime::from_timestamp(stamp.timestamp(), stamp.timestamp_subsec_nanos())
        .unwrap()
        .year()
}

/// Tells the test date at its first reading, and the system time from then
/// on.
struct StartedOnTestDate {
    first: Cell<Option<Timestamp>>,
}

impl Clock for StartedOnTestDate {
    fn now(&self) -> Timestamp {
        match self.first.take() {
            Some(time) => time,
            None => RealClock.now(),
        }
    }
}

fn new_test_game_state(word: &str) -> GameState<'static> {
    let clock: &'static StartedOnTestDate = Box::leak(Box::new(StartedOnTestDate {
        first: Cell::new(Some(test_date_time())),
    }));

    GameState::of(word, clock)
}

fn positions(items: &[usize]) -> HashSet<usize> {
    items.iter().copied().collect()
}

#[test]
fn game_state_should_be_created_with_expected_state() {
    let word = "abbc";
    let game_state = new_test_game_state(word);

    assert_eq!(game_state.word(), word);
    assert_eq!(*game_state.char_map(), char_map_from(word));
    assert!(game_state.attempts().is_empty());
    assert_eq!(game_state.attempts_left(), word.len());
    assert_eq!(game_state.last_update(), test_date_time());
    assert_eq!(game_state.find_by(&'a'), Some(&positions(&[0])));
    assert_eq!(game_state.find_by(&'b'), Some(&positions(&[1, 2])));
    assert_eq!(game_state.find_by(&'c'), Some(&positions(&[3])));
}

#[test]
fn add_attempt_should_update_game_state() {
    let word = "abc";
    let mut game_state = new_test_game_state(word);

    assert!(game_state.attempts().is_empty());
    assert_eq!(game_state.attempts_left(), word.len());
    assert_eq!(game_state.last_update(), test_date_time());

    let attempt = vec![
        CharResult::correct('a'),
        CharResult::absent('x'),
        CharResult::present('b'),
    ];

    game_state.add_attempt(attempt.clone());

    assert_eq!(game_state.attempts().len(), 1);
    assert_eq!(*game_state.attempts(), vec![attempt]);
    assert_eq!(game_state.attempts_left(), word.len() - 1);
    assert_ne!(year_of(game_state.last_update()), year_of(test_date_time()));
    assert_ne!(game_state.last_update(), test_date_time());
}

#[test]
fn describe_should_not_contain_any_previous_guesses_when_attempts_are_empty() {
    let word = "abc";
    let actual = new_test_game_state(word).describe();
    let expected = vec![
        "Welcome to Golem Wordle! Please describe Golem in a 3-letter word.",
        "You started this game on 2312-12-18 19:23:00 UTC.",
        "You had 3 attempts left.",
        GAME_INSTRUCTION,
    ];

    assert_eq!(actual, expected);
}

#[test]
fn describe_should_contain_previous_guesses_when_attempts_are_not_empty() {
    let word = "abc";
    let mut game_state = new_test_game_state(word);

    game_state.add_attempt_at(
        vec![
            CharResult::correct('a'),
            CharResult::absent('x'),
            CharResult::present('b'),
        ],
        test_date_time(),
    );
    game_state.add_attempt_at(
        vec![
            CharResult::correct('a'),
            CharResult::absent('y'),
            CharResult::present('b'),
        ],
        test_date_time(),
    );

    let actual = game_state.describe();

    let expected = vec![
        "Welcome to Golem Wordle! Please describe Golem in a 3-letter word.",
        "Here are your previous 2 guesses.",
        "['a' => Correct, 'x' => Absent, 'b' => Present]",
        "['a' => Correct, 'y' => Absent, 'b' => Present]",
        "Last time you played was on 2312-12-18 19:23:00 UTC.",
        "You had 1 attempts left.",
        GAME_INSTRUCTION,
    ];

    assert_eq!(actual, expected);
}

#[test]
fn game_state_measures_the_word_in_characters() {
    let game_state = new_test_game_state("żółw");

    assert_eq!(game_state.word_length(), 4);
    assert_eq!(game_state.attempts_left(), 4);
    assert_eq!(game_state.find_by(&'ó'), Some(&positions(&[1])));
    assert_eq!(game_state.find_by(&'o'), None);
}

#[test]
fn find_by_should_return_none_for_a_character_outside_the_word() {
    let game_state = new_test_game_state("abbc");

    assert_eq!(game_state.find_by(&'x'), None);
}

#[test]
fn is_word_should_compare_the_whole_word() {
    let game_state = new_test_game_state("abbc");

    assert!(game_state.is_word(&"abbc".to_string()));
    assert!(!game_state.is_word(&"abb".to_string()));
    assert!(!game_state.is_word(&"ABBC".to_string()));
}

#[test]
fn idle_since_should_be_true_only_after_the_threshold() {
    let game_state = new_test_game_state("abc");
    let start = test_date_time();
    let five_minutes = Timestamp::new(start.timestamp() + 300, 0).unwrap();
    let just_over = Timestamp::new(start.timestamp() + 300, 1).unwrap();
    let earlier = Timestamp::new(start.timestamp() - 1, 0).unwrap();

    assert!(!game_state.idle_since(&start, 5));
    assert!(!game_state.idle_since(&five_minutes, 5));
    assert!(game_state.idle_since(&just_over, 5));
    assert!(!game_state.idle_since(&earlier, 5));
    assert!(game_state.idle_since(&five_minutes, 4));
}

#[test]
fn last_update_older_than_should_read_the_clock_of_the_game() {
    let game_state = new_test_game_state("abc");

    assert!(!game_state.last_update_older_than(5));

    let old = Timestamp::new(0, 0).unwrap();
    let stale = GameState::started_at("abc", &RealClock, old);

    assert!(stale.last_update_older_than(5));
}

#[test]
fn of_should_start_the_game_at_the_time_of_its_clock() {
    let game_state = GameState::of("abc", &RealClock);

    assert_eq!(game_state.word(), "abc");
    assert!(game_state.attempts().is_empty());
    assert!(year_of(game_state.last_update()) >= 2024);
}

use golem_wordle::app_error::AppError;
use golem_wordle::app_state::AppState;
use golem_wordle::clock::{RealClock, Timestamp};

const DUMMY: &str = "dummy";

#[test]
fn set_empty_should_set_the_inner_element_to_none() {
    let mut app_state = AppState::empty();
    app_state
        .new_game_with(|| Ok(DUMMY), &RealClock)
        .unwrap();
    assert!(app_state.game_state().is_some());

    app_state.set_empty();

    assert!(app_state.game_state().is_none());
}

#[test]
fn new_game_with_should_produce_a_game_state() {
    let mut app_state = AppState::empty();

    assert!(app_state.game_state().is_none());

    let game_state = app_state
        .new_game_with(|| Ok(DUMMY), &RealClock)
        .unwrap();

    assert_eq!(game_state.word(), DUMMY);
}

#[test]
fn new_game_with_should_keep_the_game_when_no_word_is_provided() {
    let mut app_state = AppState::empty();
    app_state
        .new_game_with(|| Ok(DUMMY), &RealClock)
        .unwrap();

    let result = app_state.new_game_with(|| Err(AppError::NoWords), &RealClock);

    assert_eq!(result.err(), Some(AppError::NoWords));
    assert_eq!(app_state.game_state().map(|game| game.word()), Some(DUMMY));
}

#[test]
fn new_game_with_should_replace_the_game_in_progress() {
    let mut app_state = AppState::empty();
    app_state
        .new_game_with(|| Ok(DUMMY), &RealClock)
        .unwrap();

    app_state
        .new_game_with(|| Ok("golem"), &RealClock)
        .unwrap();

    assert_eq!(app_state.game_state().map(|game| game.word()), Some("golem"));
}

#[test]
fn start_should_begin_a_game_at_the_given_time() {
    let mut app_state = AppState::empty();
    let now = Timestamp::new(1_700_000_000, 0).unwrap();

    let game_state = app_state.start(DUMMY, &RealClock, now);

    assert_eq!(game_state.word(), DUMMY);
    assert_eq!(game_state.last_update(), now);
    assert!(game_state.attempts().is_empty());
}

#[test]
fn game_state_as_mut_should_change_the_game_in_place() {
    let mut app_state = AppState::empty();
    assert!(app_state.game_state_as_mut().is_none());
    app_state
        .new_game_with(|| Ok(DUMMY), &RealClock)
        .unwrap();

    app_state.game_state_as_mut().unwrap().add_attempt(vec![]);

    assert_eq!(app_state.game_state().unwrap().attempts().len(), 1);
}

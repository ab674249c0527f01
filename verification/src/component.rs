//! The operations that the host offers: start a game, continue it with a
//! guess, and ask how it stands.

use crate::app_error::{AppError, AppResult};
use crate::app_state::AppState;
use crate::clock::{Clock, Timestamp};
use crate::game_state::Session;
use crate::session_state::{result_view, Outcome, SessionState};
use crate::text::{push_line, trim, trimmed};
use vstd::prelude::*;
use vstd::string::*;

verus! {

/// What the host answers while no game is in progress.
pub const NO_GAME_IN_PROGRESS: &'static str =
    "Currently no game in progress. You can start a new game by using the `new-game` command.";

/// What the host answers to the result of an evaluation: the message of an
/// error, the lines on a guess that lets the game go on, or the one line of
/// a win or a loss.
pub open spec fn reply(result: Result<Outcome, AppError>) -> Result<Seq<Seq<char>>, Seq<char>> {
    match result {
        Ok(Outcome::InProgress { summaries }) => Ok(summaries),
        Ok(Outcome::Won(message)) => Ok(seq![message]),
        Ok(Outcome::Lost(message)) => Ok(seq![message]),
        Err(e) => Err(e.message()),
    }
}

/// Whether the result of an evaluation ends the game: a win or a loss.
pub open spec fn ends_game(result: Result<Outcome, AppError>) -> bool {
    result matches Ok(outcome) && !(outcome is InProgress)
}

/// An answer of the host as a mathematical value.
pub open spec fn answer_view(answer: Result<Vec<String>, String>) -> Result<
    Seq<Seq<char>>,
    Seq<char>,
> {
    match answer {
        Ok(lines) => Ok(lines.deep_view()),
        Err(message) => Err(message@),
    }
}

/// What the host holds after an evaluation that gave `result` and left it
/// holding `after`: no game after a win or a loss, else what it held.
pub open spec fn remaining(result: Result<Outcome, AppError>, after: Option<Session>) -> Option<
    Session,
> {
    if ends_game(result) {
        None
    } else {
        after
    }
}

/// The one line that says that no game is in progress.
pub fn no_game_in_progress() -> (lines: Vec<String>)
    ensures
        lines.deep_view() == seq![NO_GAME_IN_PROGRESS@],
{
    let mut lines: Vec<String> = Vec::new();
    push_line(&mut lines, String::from_str(NO_GAME_IN_PROGRESS));
    lines
}

/// Starts a new game on the word that `pick` provides, timed by `clock`, and
/// describes it. If `pick` fails, the message of its error is the answer, and
/// the game in progress stays.
pub fn new_game<'a, F: FnOnce() -> AppResult<&'a str>>(
    state: &mut AppState<'a>,
    pick: F,
    clock: &'a impl Clock,
) -> (answer: Result<Vec<String>, String>)
    requires
        pick.requires(()),
    ensures
        match answer {
            Ok(lines) => exists|word: &'a str, now: Timestamp|
                #![trigger pick.ensures((), Ok(word)), Session::start(word@, now)]
                {
                    &&& pick.ensures((), Ok(word))
                    &&& final(state)@ == Some(Session::start(word@, now))
                    &&& lines.deep_view() == Session::start(word@, now).describe()
                },
            Err(message) => exists|e: AppError|
                {
                    &&& #[trigger] pick.ensures((), Err(e))
                    &&& message@ == e.message()
                    &&& final(state)@ == old(state)@
                },
        },
{
    match state.new_game_with(pick, clock) {
        Ok(game_state) => {
            Ok(game_state.describe())
        },
        Err(e) => Err(e.to_string()),
    }
}

/// Answers the result of an evaluation, and ends the game in progress after
/// a win or a loss; otherwise the host holds what it held.
pub fn settle(state: &mut AppState, result: AppResult<SessionState>) -> (answer: Result<
    Vec<String>,
    String,
>)
    ensures
        answer_view(answer) == reply(result_view(result)),
        final(state)@ == remaining(result_view(result), old(state)@),
{
    match result {
        Err(e) => Err(e.to_string()),
        Ok(SessionState::InProgress { summaries }) => Ok(summaries),
        Ok(SessionState::Won(message)) => {
            state.set_empty();
            let mut lines: Vec<String> = Vec::new();
            push_line(&mut lines, message);
            assert(lines.deep_view() =~= seq![message@]);
            Ok(lines)
        },
        Ok(SessionState::Lost(message)) => {
            state.set_empty();
            let mut lines: Vec<String> = Vec::new();
            push_line(&mut lines, message);
            assert(lines.deep_view() =~= seq![message@]);
            Ok(lines)
        },
    }
}

/// Evaluates the guess `guess` at `now` against the game in progress, if
/// there is one, and answers it.
pub fn submit_guess(state: &mut AppState, guess: &str, now: Timestamp) -> (answer: Result<
    Vec<String>,
    String,
>)
    requires
        old(state).within_budget(),
    ensures
        final(state).within_budget(),
        answer is Err <==> (old(state)@ matches Some(session) && guess@.len()
            != session.word.len()),
        match old(state)@ {
            Some(session) => {
                &&& answer_view(answer) == reply(session.evaluated(guess@, now))
                &&& final(state)@ == remaining(
                    session.evaluated(guess@, now),
                    Some(session.after_evaluation(guess@, now)),
                )
            },
            None => answer_view(answer) == Ok::<Seq<Seq<char>>, Seq<char>>(
                seq![NO_GAME_IN_PROGRESS@],
            ) && final(state)@ is None,
        },
{
    let result = match state.game_state_as_mut() {
        Some(game_state) => SessionState::evaluate(guess, game_state, now),
        None => {
            return Ok(no_game_in_progress());
        },
    };
    settle(state, result)
}

/// Evaluates the guess `player_guess`, without the white space at its two
/// ends, against the game in progress, at the time that the game's clock
/// tells, and answers it.
pub fn continue_game(state: &mut AppState, player_guess: &str) -> (answer: Result<
    Vec<String>,
    String,
>)
    requires
        old(state).within_budget(),
    ensures
        final(state).within_budget(),
        answer is Err <==> (old(state)@ matches Some(session) && trimmed(player_guess@).len()
            != session.word.len()),
        match old(state)@ {
            Some(session) => exists|now: Timestamp|
                {
                    &&& answer_view(answer) == reply(
                        #[trigger] session.evaluated(trimmed(player_guess@), now),
                    )
                    &&& final(state)@ == remaining(
                        session.evaluated(trimmed(player_guess@), now),
                        Some(session.after_evaluation(trimmed(player_guess@), now)),
                    )
                },
            None => answer_view(answer) == Ok::<Seq<Seq<char>>, Seq<char>>(
                seq![NO_GAME_IN_PROGRESS@],
            ) && final(state)@ is None,
        },
{
    let result = match state.game_state_as_mut() {
        Some(game_state) => SessionState::determined_by(trim(player_guess), game_state),
        None => {
            return Ok(no_game_in_progress());
        },
    };
    settle(state, result)
}

/// Describes the game in progress, or says that there is none.
pub fn game_status(state: &AppState) -> (lines: Vec<String>)
    requires
        state.within_budget(),
    ensures
        lines.deep_view() == match state@ {
            Some(session) => session.describe(),
            None => seq![NO_GAME_IN_PROGRESS@],
        },
{
    match state.game_state() {
        Some(game_state) => game_state.describe(),
        None => no_game_in_progress(),
    }
}

} // verus!

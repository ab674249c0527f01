//! The decisions of the command-line loop: what to do with a line of input.

use crate::app_error::{AppError, AppResult};
use crate::clock::Timestamp;
use crate::game_state::GameState;
use crate::session_state::{result_view, Outcome, SessionState};
use crate::text::{join_lines, joined_lines, trim, trimmed};
use vstd::prelude::*;
use vstd::string::*;

verus! {

/// What the loop prints before it reads a guess.
pub const PROMPT: &'static str = "\nPlease enter your guess: ";

/// What the loop does after a line of input.
#[derive(Debug, PartialEq)]
pub enum Turn {
    /// The guess was refused: the text goes to the error stream, and the
    /// player is asked again.
    Retry(String),
    /// The game goes on: the text is printed, and the player is asked again.
    Continue(String),
    /// The game is over: the text is printed, the game is dropped, and the
    /// loop ends.
    Finish(String),
}

/// What the loop does after a line of input, as a mathematical value.
pub enum Step {
    Retry(Seq<char>),
    Continue(Seq<char>),
    Finish(Seq<char>),
}

impl View for Turn {
    type V = Step;

    open spec fn view(&self) -> Step {
        match self {
            Turn::Retry(text) => Step::Retry(text@),
            Turn::Continue(text) => Step::Continue(text@),
            Turn::Finish(text) => Step::Finish(text@),
        }
    }
}

/// What the loop tells the player of a refused guess.
pub open spec fn refusal(e: AppError) -> Seq<char> {
    "*** ERROR: "@ + e.message()
}

/// What the loop makes of the result of an evaluation: a guess of the wrong
/// length is tried again, any other error ends the run; a win or a loss
/// ends the game with its message; else the lines on the guess are shown,
/// one below the other.
pub open spec fn step_of(result: Result<Outcome, AppError>) -> Result<Step, AppError> {
    match result {
        Err(AppError::InvalidGuessLength(expected)) => Ok(
            Step::Retry(refusal(AppError::InvalidGuessLength(expected))),
        ),
        Err(e) => Err(e),
        Ok(Outcome::Won(message)) => Ok(Step::Finish(message)),
        Ok(Outcome::Lost(message)) => Ok(Step::Finish(message)),
        Ok(Outcome::InProgress { summaries }) => Ok(Step::Continue(joined_lines(summaries))),
    }
}

/// What the loop does after a line of input, as a mathematical value.
pub open spec fn turn_view(turn: AppResult<Turn>) -> Result<Step, AppError> {
    match turn {
        Ok(turn) => Ok(turn@),
        Err(e) => Err(e),
    }
}

/// What the loop makes of the result of an evaluation.
pub fn turn(result: AppResult<SessionState>) -> (turn: AppResult<Turn>)
    ensures
        turn_view(turn) == step_of(result_view(result)),
{
    match result {
        Err(AppError::InvalidGuessLength(expected)) => {
            let mut text = String::from_str("*** ERROR: ");
            text.append(AppError::InvalidGuessLength(expected).to_string().as_str());
            Ok(Turn::Retry(text))
        },
        Err(e) => Err(e),
        Ok(SessionState::Won(message)) => Ok(Turn::Finish(message)),
        Ok(SessionState::Lost(message)) => Ok(Turn::Finish(message)),
        Ok(SessionState::InProgress { summaries }) => Ok(Turn::Continue(join_lines(&summaries))),
    }
}

/// Evaluates the line `user_input`, without the white space at its two
/// ends, against the game, at the time that the game's clock tells, and
/// says what the loop does next. It never fails: a guess of the wrong
/// length, the one error of an evaluation, is tried again.
pub fn play(game_state: &mut GameState, user_input: &str) -> (turn: AppResult<Turn>)
    requires
        old(game_state)@.within_budget(),
    ensures
        final(game_state)@.within_budget(),
        turn is Ok,
        exists|now: Timestamp|
            {
                &&& turn_view(turn) == step_of(
                    #[trigger] old(game_state)@.evaluated(trimmed(user_input@), now),
                )
                &&& final(game_state)@ == old(game_state)@.after_evaluation(
                    trimmed(user_input@),
                    now,
                )
            },
{
    let result = SessionState::determined_by(trim(user_input), game_state);
    turn(result)
}

} // verus!

//! The evaluation of a guess: the verdict on each character, and what
//! becomes of the game.

use crate::app_error::{AppError, AppResult};
use crate::char_result::{attempt_text, CharResult};
use crate::clock::{nanos_between, Timestamp};
use crate::game_state::{GameState, Session};
use crate::text::{decimal, lowercase, push_decimal, push_line, to_lowercase};
use crate::words::GuessResult;
use vstd::prelude::*;
use vstd::string::*;

verus! {

/// After this many minutes without activity, the answer to a guess begins
/// with the description of the game.
pub const IDLE_DURATION: i64 = 5;

/// What the player is told on a win.
pub open spec fn won_message() -> Seq<char> {
    "Well done, you've guessed the word!"@
}

/// What the player is told on a loss.
pub open spec fn lost_message(word: Seq<char>) -> Seq<char> {
    "Sorry, better luck next time. The word was '"@ + word + "'."@
}

/// The verdict on the character `c` at position `i` of a guess.
pub open spec fn classify(word: Seq<char>, c: char, i: int) -> GuessResult {
    if 0 <= i < word.len() && word[i] == c {
        GuessResult::Correct
    } else if word.contains(c) {
        GuessResult::Present
    } else {
        GuessResult::Absent
    }
}

/// The verdicts on the characters of `guess`, in the order of the guess.
pub open spec fn score(word: Seq<char>, guess: Seq<char>) -> Seq<CharResult> {
    Seq::new(guess.len(), |i: int| CharResult::new(guess[i], classify(word, guess[i], i)))
}

/// The three lines that answer a scored guess: the guess, the verdicts on
/// it, and the attempts left after it.
pub open spec fn guess_lines(guess: Seq<char>, verdicts: Seq<CharResult>, left: nat) -> Seq<
    Seq<char>,
> {
    seq![
        "Your guess was '"@ + guess + "'."@,
        "Here's how you did: "@ + attempt_text(verdicts) + "."@,
        "You now have "@ + decimal(left) + " attempts left."@,
    ]
}

/// The result of an evaluation as a mathematical value.
pub enum Outcome {
    /// The game goes on; the lines tell the player how the guess did.
    InProgress { summaries: Seq<Seq<char>> },
    /// The guess was the target word.
    Won(Seq<char>),
    /// The last attempt was used up on a wrong guess.
    Lost(Seq<char>),
}

impl Session {
    /// Whether the game goes on after the lower-cased guess `guess`: it is
    /// not the target word, and it is not the last attempt.
    pub open spec fn continues(self, guess: Seq<char>) -> bool {
        guess != self.word && self.attempts_left() > 1
    }

    /// The lines that answer a scored guess at `now`: the description of the
    /// game, if it has been idle, and the three lines on the guess.
    pub open spec fn summaries(self, guess: Seq<char>, now: Timestamp) -> Seq<Seq<char>> {
        let answer = guess_lines(guess, score(self.word, guess), (self.attempts_left() - 1) as nat);
        if self.idle(now, IDLE_DURATION as int) {
            self.describe() + answer
        } else {
            answer
        }
    }

    /// The outcome of the lower-cased guess `guess` at `now`: a win if it is
    /// the target word, else a loss if it was the last attempt, else the
    /// game goes on.
    pub open spec fn judged(self, guess: Seq<char>, now: Timestamp) -> Outcome {
        if guess == self.word {
            Outcome::Won(won_message())
        } else if self.attempts_left() > 1 {
            Outcome::InProgress { summaries: self.summaries(guess, now) }
        } else {
            Outcome::Lost(lost_message(self.word))
        }
    }

    /// The game after the lower-cased guess `guess` at `now`: the verdicts
    /// are recorded if the game goes on, and nothing changes otherwise.
    pub open spec fn after(self, guess: Seq<char>, now: Timestamp) -> Session {
        if self.continues(guess) {
            self.record(score(self.word, guess), now)
        } else {
            self
        }
    }

    /// The result of evaluating the input `input` at `now`: an error if it
    /// has not as many characters as the target word, else the outcome of
    /// its lower-case form.
    pub open spec fn evaluated(self, input: Seq<char>, now: Timestamp) -> Result<Outcome, AppError> {
        if input.len() != self.word.len() {
            Err(AppError::InvalidGuessLength(self.word.len() as usize))
        } else {
            Ok(self.judged(lowercase(input), now))
        }
    }

    /// The game after evaluating the input `input` at `now`.
    pub open spec fn after_evaluation(self, input: Seq<char>, now: Timestamp) -> Session {
        if input.len() != self.word.len() {
            self
        } else {
            self.after(lowercase(input), now)
        }
    }
}

/// The result of an evaluation.
#[derive(Debug, PartialEq)]
pub enum SessionState {
    /// The game goes on; the lines tell the player how the guess did.
    InProgress { summaries: Vec<String> },
    /// The guess was the target word.
    Won(String),
    /// The last attempt was used up on a wrong guess.
    Lost(String),
}

impl View for SessionState {
    type V = Outcome;

    open spec fn view(&self) -> Outcome {
        match self {
            SessionState::InProgress { summaries } => Outcome::InProgress {
                summaries: summaries.deep_view(),
            },
            SessionState::Won(message) => Outcome::Won(message@),
            SessionState::Lost(message) => Outcome::Lost(message@),
        }
    }
}

/// The result of an evaluation as a mathematical value.
pub open spec fn result_view(result: AppResult<SessionState>) -> Result<Outcome, AppError> {
    match result {
        Ok(state) => Ok(state@),
        Err(e) => Err(e),
    }
}

impl SessionState {
    /// The outcome of a win.
    pub fn won() -> (state: Self)
        ensures
            state@ == Outcome::Won(won_message()),
    {
        SessionState::Won(String::from_str("Well done, you've guessed the word!"))
    }

    /// The outcome of a loss on the target word `word`.
    pub fn lost(word: &str) -> (state: Self)
        ensures
            state@ == Outcome::Lost(lost_message(word@)),
    {
        let mut message = String::from_str("Sorry, better luck next time. The word was '");
        message.append(word);
        message.append("'.");
        SessionState::Lost(message)
    }

    /// The verdicts on the characters of `guess` against the target word of
    /// `game`.
    pub fn score(guess: &str, game: &GameState) -> (attempt: Vec<CharResult>)
        ensures
            attempt@ == score(game@.word, guess@),
    {
        let length: usize = guess.unicode_len();
        let mut attempt: Vec<CharResult> = Vec::new();
        let mut i: usize = 0;
        for char in it: guess.chars()
            invariant
                i == it.index(),
                it.seq() == guess@,
                length == guess@.len(),
                attempt@ == score(game@.word, guess@).take(i as int),
        {
            let result = match game.find_by(&char) {
                Some(positions) => {
                    if positions.contains(&i) {
                        GuessResult::Correct
                    } else {
                        GuessResult::Present
                    }
                },
                None => GuessResult::Absent,
            };
            attempt.push(CharResult::new(char, result));
            i = i + 1;
        }
        attempt
    }

    /// Judges the lower-cased guess `guess` at `now`: a win if it is the
    /// target word, else a loss if it was the last attempt; else the guess is
    /// scored and recorded, and the game goes on.
    pub fn judge(guess: String, game: &mut GameState, now: Timestamp) -> (state: Self)
        requires
            old(game)@.within_budget(),
        ensures
            final(game)@.within_budget(),
            state@ == old(game)@.judged(guess@, now),
            final(game)@ == old(game)@.after(guess@, now),
    {
        if game.is_word(&guess) {
            return Self::won();
        }
        let attempts_left: usize = game.attempts_left();
        if attempts_left > 1 {
            let attempt = Self::score(guess.as_str(), game);
            let mut summaries = if game.idle_since(&now, IDLE_DURATION) {
                game.describe()
            } else {
                Vec::new()
            };
            let ghost prefix = summaries.deep_view();

            let mut guessed = String::from_str("Your guess was '");
            guessed.append(guess.as_str());
            guessed.append("'.");
            push_line(&mut summaries, guessed);

            let mut verdicts = String::from_str("Here's how you did: ");
            verdicts.append(CharResult::display(attempt.as_slice()).as_str());
            verdicts.append(".");
            push_line(&mut summaries, verdicts);

            let mut left = String::from_str("You now have ");
            push_decimal(&mut left, attempts_left - 1);
            left.append(" attempts left.");
            push_line(&mut summaries, left);

            assert(summaries.deep_view() == prefix + guess_lines(
                guess@,
                score(old(game)@.word, guess@),
                (old(game)@.attempts_left() - 1) as nat,
            ));
            game.add_attempt_at(attempt, now);
            SessionState::InProgress { summaries }
        } else {
            Self::lost(game.word())
        }
    }

    /// Evaluates the input `user_input` at `now`. An input that has not as
    /// many characters as the target word is refused, and the game is left
    /// as it was; any other is lower-cased and judged.
    pub fn evaluate(user_input: &str, game: &mut GameState, now: Timestamp) -> (result: AppResult<
        Self,
    >)
        requires
            old(game)@.within_budget(),
        ensures
            final(game)@.within_budget(),
            result is Err <==> user_input@.len() != old(game)@.word.len(),
            result_view(result) == old(game)@.evaluated(user_input@, now),
            final(game)@ == old(game)@.after_evaluation(user_input@, now),
    {
        let word_length: usize = game.word_length();
        if user_input.unicode_len() != word_length {
            return Err(AppError::InvalidGuessLength(word_length));
        }
        let guess = to_lowercase(user_input);
        Ok(Self::judge(guess, game, now))
    }

    /// Evaluates the input `user_input` at the time that the game's clock
    /// tells. It fails on an input that has not as many characters as the
    /// target word, and on no other.
    pub fn determined_by(user_input: &str, game: &mut GameState) -> (result: AppResult<Self>)
        requires
            old(game)@.within_budget(),
        ensures
            final(game)@.within_budget(),
            result is Err <==> user_input@.len() != old(game)@.word.len(),
            result matches Err(e) ==> e == AppError::InvalidGuessLength(
                old(game)@.word.len() as usize,
            ) && final(game)@ == old(game)@,
            exists|now: Timestamp|
                {
                    &&& result_view(result) == #[trigger] old(game)@.evaluated(user_input@, now)
                    &&& final(game)@ == old(game)@.after_evaluation(user_input@, now)
                },
    {
        let now = game.now();
        Self::evaluate(user_input, game, now)
    }
}

/// The game after the inputs `inputs` were evaluated in turn, the `i`-th at
/// `times[i]`.
pub open spec fn replayed(session: Session, inputs: Seq<Seq<char>>, times: Seq<Timestamp>) -> Session
    decreases inputs.len(),
{
    if inputs.len() == 0 {
        session
    } else {
        replayed(session, inputs.drop_last(), times.drop_last()).after_evaluation(
            inputs.last(),
            times.last(),
        )
    }
}

/// Every one of the inputs `inputs`, evaluated in turn, the `i`-th at
/// `times[i]`, was scored and let the game go on.
pub open spec fn all_scored(session: Session, inputs: Seq<Seq<char>>, times: Seq<Timestamp>) -> bool
    decreases inputs.len(),
{
    if inputs.len() == 0 {
        true
    } else {
        &&& all_scored(session, inputs.drop_last(), times.drop_last())
        &&& replayed(session, inputs.drop_last(), times.drop_last()).evaluated(
            inputs.last(),
            times.last(),
        ) matches Ok(Outcome::InProgress { .. })
    }
}

/// A guess with as many characters as the target word, whose lower-case form
/// is the target word, wins, and the game is left as it was: no attempt is
/// recorded.
pub proof fn matching_guess_wins(session: Session, input: Seq<char>, now: Timestamp)
    ensures
        input.len() == session.word.len() && lowercase(input) == session.word ==> {
            &&& session.evaluated(input, now) == Ok::<Outcome, AppError>(
                Outcome::Won(won_message()),
            )
            &&& session.after_evaluation(input, now) == session
        },
{
}

/// A guess that has not as many characters as the target word is refused
/// with the length of the target word, and the game is left as it was.
pub proof fn wrong_length_is_refused(session: Session, input: Seq<char>, now: Timestamp)
    requires
        input.len() != session.word.len(),
    ensures
        session.evaluated(input, now) == Err::<Outcome, AppError>(
            AppError::InvalidGuessLength(session.word.len() as usize),
        ),
        session.after_evaluation(input, now) == session,
{
}

/// An evaluation that lets the game go on records one attempt, stamped with
/// the time of the evaluation, and so uses up one of the attempts left. Any
/// other evaluation leaves the game as it was.
pub proof fn scored_guess_uses_one_attempt(session: Session, input: Seq<char>, now: Timestamp)
    ensures
        session.evaluated(input, now) matches Ok(Outcome::InProgress { .. }) ==> {
            &&& session.after_evaluation(input, now) == session.record(
                score(session.word, lowercase(input)),
                now,
            )
            &&& session.after_evaluation(input, now).attempts_left() == session.attempts_left() - 1
        },
        !(session.evaluated(input, now) matches Ok(Outcome::InProgress { .. }))
            ==> session.after_evaluation(input, now) == session,
{
}

/// After `k` evaluations that each let the game go on, `k` fewer attempts
/// are left: in a game that started with none made, the length of the target
/// word less `k`.
pub proof fn budget_after_scored_guesses(
    session: Session,
    inputs: Seq<Seq<char>>,
    times: Seq<Timestamp>,
)
    requires
        inputs.len() == times.len(),
        all_scored(session, inputs, times),
    ensures
        replayed(session, inputs, times).word == session.word,
        replayed(session, inputs, times).attempts.len() == session.attempts.len() + inputs.len(),
        replayed(session, inputs, times).attempts_left() == session.attempts_left() - inputs.len(),
        session.attempts.len() == 0 ==> replayed(session, inputs, times).attempts_left()
            == session.word.len() - inputs.len(),
    decreases inputs.len(),
{
    if inputs.len() > 0 {
        budget_after_scored_guesses(session, inputs.drop_last(), times.drop_last());
        scored_guess_uses_one_attempt(
            replayed(session, inputs.drop_last(), times.drop_last()),
            inputs.last(),
            times.last(),
        );
    }
}

/// With one attempt left or none, an evaluation never lets the game go on:
/// a guess of the right length wins or loses.
pub proof fn last_attempt_ends_the_game(session: Session, input: Seq<char>, now: Timestamp)
    requires
        session.attempts_left() <= 1,
    ensures
        !(session.evaluated(input, now) matches Ok(Outcome::InProgress { .. })),
        input.len() == session.word.len() ==> session.evaluated(input, now) == Ok::<
            Outcome,
            AppError,
        >(
            if lowercase(input) == session.word {
                Outcome::Won(won_message())
            } else {
                Outcome::Lost(lost_message(session.word))
            },
        ),
        session.after_evaluation(input, now) == session,
{
}

/// While the game goes on, fewer attempts are recorded than the target word
/// has characters: an evaluation of a game within its budget leaves it
/// within its budget, and after a scored guess at least one attempt is left.
pub proof fn budget_is_kept(session: Session, input: Seq<char>, now: Timestamp)
    requires
        session.within_budget(),
    ensures
        session.after_evaluation(input, now).within_budget(),
        session.evaluated(input, now) matches Ok(Outcome::InProgress { .. })
            ==> session.after_evaluation(input, now).attempts_left() >= 1,
{
}

/// The answer to a scored guess begins with the description of the game as
/// it was before the guess if more than five minutes have passed since the
/// last activity, and with the line on the guess itself otherwise. The three
/// lines on the guess end it either way.
pub proof fn idle_answer_begins_with_description(session: Session, input: Seq<char>, now: Timestamp)
    requires
        session.evaluated(input, now) matches Ok(Outcome::InProgress { .. }),
    ensures
        ({
            let summaries = session.evaluated(input, now)->Ok_0->summaries;
            let guess = lowercase(input);
            let answer = guess_lines(
                guess,
                score(session.word, guess),
                (session.attempts_left() - 1) as nat,
            );
            let described = session.describe().len() as int;
            if nanos_between(session.last_update, now) > 5 * 60_000_000_000 {
                &&& summaries.len() == described + 3
                &&& summaries.take(described) == session.describe()
                &&& summaries.skip(described) == answer
            } else {
                &&& summaries == answer
                &&& summaries[0] == "Your guess was '"@ + guess + "'."@
            }
        }),
{
}

} // verus!

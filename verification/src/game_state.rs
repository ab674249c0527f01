//! The state of one game: the target word, the attempts made so far and the
//! time of the last activity.

use crate::char_result::{attempt_text, CharResult};
use crate::clock::{nanos_between, Clock, Timestamp};
use crate::text::{decimal, push_decimal, push_line};
use crate::words::{char_map_from, code, indexes, lemma_code_injective, positions_of, CharMap};
use std::collections::HashSet;
use vstd::prelude::*;
use vstd::string::*;

verus! {

/// The last line of every description of a game.
pub const GAME_INSTRUCTION: &'static str =
    "You can continue this game by using the `continue-game` command, or you can start a new game by using the `new-game` command.";

/// The first line of a description: the length of the target word.
pub open spec fn welcome_line(word_length: nat) -> Seq<char> {
    "Welcome to Golem Wordle! Please describe Golem in a "@ + decimal(word_length)
        + "-letter word."@
}

/// The line that announces the attempts made so far.
pub open spec fn previous_guesses_line(count: nat) -> Seq<char> {
    "Here are your previous "@ + decimal(count) + " guesses."@
}

/// The line that says when the last attempt was made.
pub open spec fn last_played_line(stamp: Seq<char>) -> Seq<char> {
    "Last time you played was on "@ + stamp + "."@
}

/// The line that says when a game without attempts was started.
pub open spec fn started_line(stamp: Seq<char>) -> Seq<char> {
    "You started this game on "@ + stamp + "."@
}

/// The line that says how many attempts are left.
pub open spec fn attempts_left_line(left: nat) -> Seq<char> {
    "You had "@ + decimal(left) + " attempts left."@
}

/// The first line of a description: the length of the target word.
pub fn welcome(word_length: usize) -> (line: String)
    ensures
        line@ == welcome_line(word_length as nat),
{
    let mut line = String::from_str("Welcome to Golem Wordle! Please describe Golem in a ");
    push_decimal(&mut line, word_length);
    line.append("-letter word.");
    line
}

/// A game as a mathematical value.
pub struct Session {
    /// The target word.
    pub word: Seq<char>,
    /// The attempts scored so far, oldest first.
    pub attempts: Seq<Seq<CharResult>>,
    /// When the game was started or the last attempt was scored.
    pub last_update: Timestamp,
}

impl Session {
    /// A game on `word` that starts at `now`.
    pub open spec fn start(word: Seq<char>, now: Timestamp) -> Session {
        Session { word, attempts: Seq::empty(), last_update: now }
    }

    /// The attempts that are left: one for each character of the target
    /// word, less those that were made.
    pub open spec fn attempts_left(self) -> int {
        self.word.len() - self.attempts.len()
    }

    /// No more attempts were made than the target word has characters.
    pub open spec fn within_budget(self) -> bool {
        self.attempts.len() <= self.word.len()
    }

    /// The game after `attempt` was scored at `now`.
    pub open spec fn record(self, attempt: Seq<CharResult>, now: Timestamp) -> Session {
        Session { word: self.word, attempts: self.attempts.push(attempt), last_update: now }
    }

    /// Whether at `now` more than `minutes` minutes have passed since the
    /// last activity.
    pub open spec fn idle(self, now: Timestamp, minutes: int) -> bool {
        nanos_between(self.last_update, now) > minutes * 60_000_000_000
    }

    /// The middle of a description, with `stamp` for the time of the last
    /// activity: where attempts were made, their number, each of them, and
    /// when the last one was made; else when the game was started.
    pub open spec fn history_with(self, stamp: Seq<char>) -> Seq<Seq<char>> {
        if self.attempts.len() > 0 {
            seq![previous_guesses_line(self.attempts.len())] + self.attempts.map_values(
                |attempt: Seq<CharResult>| attempt_text(attempt),
            ) + seq![last_played_line(stamp)]
        } else {
            seq![started_line(stamp)]
        }
    }

    /// The description of the game, with `stamp` for the time of the last
    /// activity: the welcome, the history, the attempts left and the
    /// instruction.
    pub open spec fn describe_with(self, stamp: Seq<char>) -> Seq<Seq<char>> {
        seq![welcome_line(self.word.len())] + self.history_with(stamp) + seq![
            attempts_left_line(self.attempts_left() as nat),
            GAME_INSTRUCTION@,
        ]
    }

    /// The description of the game.
    pub open spec fn describe(self) -> Seq<Seq<char>> {
        self.describe_with(self.last_update.text())
    }
}

/// A target word with its length and its position index, which are
/// consistent by construction.
pub struct Target {
    word: String,
    word_length: usize,
    char_map: CharMap,
}

impl View for Target {
    type V = Seq<char>;

    closed spec fn view(&self) -> Seq<char> {
        self.word@
    }
}

impl Target {
    #[verifier::type_invariant]
    spec fn consistent(self) -> bool {
        &&& self.word_length == self.word@.len()
        &&& indexes(self.char_map, self.word@)
    }

    /// The target `word`, measured in characters and indexed.
    pub fn of(word: &str) -> (target: Self)
        ensures
            target@ == word@,
    {
        Self {
            word: String::from_str(word),
            word_length: word.unicode_len(),
            char_map: char_map_from(word),
        }
    }

    /// The word.
    pub fn word(&self) -> (word: &str)
        ensures
            word@ == self@,
    {
        self.word.as_str()
    }

    /// Whether `guess` is the word.
    pub fn is_word(&self, guess: &String) -> (same: bool)
        ensures
            same == (guess@ == self@),
    {
        self.word == *guess
    }

    /// The length of the word in characters.
    pub fn word_length(&self) -> (length: usize)
        ensures
            length == self@.len(),
    {
        proof {
            use_type_invariant(self);
        }
        self.word_length
    }

    /// The position index of the word.
    pub fn char_map(&self) -> (map: &CharMap)
        ensures
            indexes(*map, self@),
    {
        proof {
            use_type_invariant(self);
        }
        &self.char_map
    }

    /// The positions at which `char` occurs in the word, if it occurs there
    /// at all.
    pub fn find_by(&self, char: &char) -> (found: Option<&HashSet<usize>>)
        ensures
            match found {
                Some(positions) => self@.contains(*char) && positions@ == positions_of(
                    self@,
                    *char,
                ),
                None => !self@.contains(*char),
            },
    {
        proof {
            use_type_invariant(self);
        }
        let key: u32 = *char as u32;
        let found = self.char_map.get(&key);
        proof {
            let word = self.word@;
            if self.char_map@.contains_key(key) {
                let i = choose|i: int| 0 <= i < word.len() && code(#[trigger] word[i]) == key;
                lemma_code_injective(word[i], *char);
            }
        }
        found
    }
}

/// A game in progress, with the clock that times it.
pub struct GameState<'a> {
    target: Target,
    last_update: Timestamp,
    attempts: Vec<Vec<CharResult>>,
    clock: &'a dyn Clock,
}

impl<'a> View for GameState<'a> {
    type V = Session;

    closed spec fn view(&self) -> Session {
        Session {
            word: self.target@,
            attempts: self.attempts@.map_values(|attempt: Vec<CharResult>| attempt@),
            last_update: self.last_update,
        }
    }
}

impl<'a> GameState<'a> {
    /// A new game on `word`, timed by `clock` and started at `now`.
    pub fn started_at(word: &str, clock: &'a dyn Clock, now: Timestamp) -> (game: Self)
        ensures
            game@ == Session::start(word@, now),
    {
        let game = Self { target: Target::of(word), attempts: Vec::new(), last_update: now, clock };
        assert(game@.attempts =~= Seq::empty());
        game
    }

    /// A new game on `word`, timed by `clock` and started at the time that
    /// `clock` tells.
    pub fn of(word: &str, clock: &'a impl Clock) -> (game: Self)
        ensures
            exists|now: Timestamp| game@ == #[trigger] Session::start(word@, now),
    {
        let now = clock.now();
        Self::started_at(word, clock, now)
    }

    /// What the game's clock tells now.
    pub fn now(&self) -> Timestamp {
        self.clock.now()
    }

    /// Appends `attempt` to the attempts and sets the last activity to `now`.
    pub fn add_attempt_at(&mut self, attempt: Vec<CharResult>, now: Timestamp)
        ensures
            final(self)@ == old(self)@.record(attempt@, now),
    {
        self.attempts.push(attempt);
        self.last_update = now;
        assert(self@.attempts =~= old(self)@.attempts.push(attempt@));
    }

    /// Appends `attempt` to the attempts and sets the last activity to the
    /// time that the game's clock tells.
    pub fn add_attempt(&mut self, attempt: Vec<CharResult>)
        ensures
            exists|now: Timestamp| final(self)@ == #[trigger] old(self)@.record(attempt@, now),
    {
        let now = self.clock.now();
        self.add_attempt_at(attempt, now);
    }

    /// The target word.
    pub fn word(&self) -> (word: &str)
        ensures
            word@ == self@.word,
    {
        self.target.word()
    }

    /// Whether `guess` is the target word.
    pub fn is_word(&self, guess: &String) -> (same: bool)
        ensures
            same == (guess@ == self@.word),
    {
        self.target.is_word(guess)
    }

    /// The length of the target word in characters.
    pub fn word_length(&self) -> (length: usize)
        ensures
            length == self@.word.len(),
    {
        self.target.word_length()
    }

    /// The position index of the target word.
    pub fn char_map(&self) -> (map: &CharMap)
        ensures
            indexes(*map, self@.word),
    {
        self.target.char_map()
    }

    /// When the game was started or the last attempt was scored.
    pub fn last_update(&self) -> (stamp: Timestamp)
        ensures
            stamp == self@.last_update,
    {
        self.last_update
    }

    /// The attempts scored so far, oldest first.
    pub fn attempts(&self) -> (attempts: &Vec<Vec<CharResult>>)
        ensures
            attempts@.map_values(|attempt: Vec<CharResult>| attempt@) == self@.attempts,
    {
        &self.attempts
    }

    /// Whether at `now` more than `minutes` minutes have passed since the
    /// last activity.
    pub fn idle_since(&self, now: &Timestamp, minutes: i64) -> (idle: bool)
        ensures
            idle == self@.idle(*now, minutes as int),
    {
        self.last_update.older_than(now, minutes)
    }

    /// Whether, by the game's clock, more than `minutes` minutes have passed
    /// since the last activity.
    pub fn last_update_older_than(&self, minutes: i64) -> (idle: bool)
        ensures
            exists|now: Timestamp| idle == #[trigger] self@.idle(now, minutes as int),
    {
        let now = self.clock.now();
        self.idle_since(&now, minutes)
    }

    /// The positions at which `char` occurs in the target word, if it occurs
    /// there at all.
    pub fn find_by(&self, char: &char) -> (found: Option<&HashSet<usize>>)
        ensures
            match found {
                Some(positions) => self@.word.contains(*char) && positions@ == positions_of(
                    self@.word,
                    *char,
                ),
                None => !self@.word.contains(*char),
            },
    {
        self.target.find_by(char)
    }

    /// Whether no more attempts were made than the target word has
    /// characters.
    pub fn is_within_budget(&self) -> (within: bool)
        ensures
            within == self@.within_budget(),
    {
        self.attempts.len() <= self.target.word_length()
    }

    /// The attempts that are left.
    pub fn attempts_left(&self) -> (left: usize)
        requires
            self@.within_budget(),
        ensures
            left == self@.attempts_left(),
    {
        self.target.word_length() - self.attempts.len()
    }

    /// The description of the game, with `stamp` for the time of the last
    /// activity.
    pub fn describe_with(&self, stamp: &str) -> (lines: Vec<String>)
        requires
            self@.within_budget(),
        ensures
            lines.deep_view() == self@.describe_with(stamp@),
    {
        let ghost printed = self@.attempts.map_values(
            |attempt: Seq<CharResult>| attempt_text(attempt),
        );
        let mut lines: Vec<String> = Vec::new();
        push_line(&mut lines, welcome(self.target.word_length()));
        let count: usize = self.attempts.len();
        if count > 0 {
            let mut previous = String::from_str("Here are your previous ");
            push_decimal(&mut previous, count);
            previous.append(" guesses.");
            push_line(&mut lines, previous);
            let ghost head = lines.deep_view();
            let mut i: usize = 0;
            while i < count
                invariant
                    i <= count,
                    count == self.attempts.len(),
                    printed == self@.attempts.map_values(
                        |attempt: Seq<CharResult>| attempt_text(attempt),
                    ),
                    lines.deep_view() == head + printed.take(i as int),
                decreases count - i,
            {
                let line = CharResult::display(self.attempts[i].as_slice());
                push_line(&mut lines, line);
                i = i + 1;
            }
            let mut last_played = String::from_str("Last time you played was on ");
            last_played.append(stamp);
            last_played.append(".");
            push_line(&mut lines, last_played);
        } else {
            let mut started = String::from_str("You started this game on ");
            started.append(stamp);
            started.append(".");
            push_line(&mut lines, started);
        }
        let mut left = String::from_str("You had ");
        push_decimal(&mut left, self.attempts_left());
        left.append(" attempts left.");
        push_line(&mut lines, left);
        push_line(&mut lines, String::from_str(GAME_INSTRUCTION));
        lines
    }

    /// The description of the game.
    pub fn describe(&self) -> (lines: Vec<String>)
        requires
            self@.within_budget(),
        ensures
            lines.deep_view() == self@.describe(),
    {
        let stamp = self.last_update.to_string();
        self.describe_with(stamp.as_str())
    }
}

} // verus!

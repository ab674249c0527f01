//! The host's state: the one game in progress, if there is one.

use crate::app_error::AppResult;
use crate::clock::{Clock, Timestamp};
use crate::game_state::{GameState, Session};
use vstd::prelude::*;

verus! {

/// At most one game in progress.
pub struct AppState<'a>(Option<GameState<'a>>);

impl<'a> View for AppState<'a> {
    type V = Option<Session>;

    closed spec fn view(&self) -> Option<Session> {
        match self.0 {
            Some(game) => Some(game@),
            None => None,
        }
    }
}

impl<'a> AppState<'a> {
    /// The game in progress, if there is one, has made no more attempts than
    /// its target word has characters.
    pub open spec fn within_budget(self) -> bool {
        self@ matches Some(session) ==> session.within_budget()
    }

    /// Whether the game in progress, if there is one, has made no more
    /// attempts than its target word has characters.
    pub fn is_within_budget(&self) -> (within: bool)
        ensures
            within == self.within_budget(),
    {
        match &self.0 {
            Some(game) => game.is_within_budget(),
            None => true,
        }
    }

    /// No game in progress.
    pub fn empty() -> (state: Self)
        ensures
            state@ is None,
    {
        Self(None)
    }

    /// The game in progress, if there is one.
    pub fn game_state(&self) -> (game: Option<&GameState<'a>>)
        ensures
            match game {
                Some(game) => self@ == Some(game@),
                None => self@ is None,
            },
    {
        self.0.as_ref()
    }

    /// The game in progress, if there is one, to be changed in place.
    pub fn game_state_as_mut(&mut self) -> (game: Option<&mut GameState<'a>>)
        ensures
            match game {
                Some(game) => old(self)@ == Some(game@) && final(self)@ == Some(final(game)@),
                None => old(self)@ is None && final(self)@ is None,
            },
    {
        self.0.as_mut()
    }

    /// Ends the game in progress, if there is one.
    pub fn set_empty(&mut self)
        ensures
            final(self)@ is None,
    {
        self.0 = None;
    }

    /// Replaces the game in progress, if there is one, by a new game on
    /// `word`, timed by `clock` and started at `now`.
    pub fn start(&mut self, word: &str, clock: &'a dyn Clock, now: Timestamp) -> (game:
        &mut GameState<'a>)
        ensures
            game@ == Session::start(word@, now),
            final(self)@ == Some(final(game)@),
    {
        self.set_empty();
        self.0.insert(GameState::started_at(word, clock, now))
    }

    /// Starts a new game on the word that `f` provides, timed by `clock`. If
    /// `f` fails, its error is handed on and the game in progress stays.
    pub fn new_game_with<F: FnOnce() -> AppResult<&'a str>>(
        &mut self,
        f: F,
        clock: &'a impl Clock,
    ) -> (result: AppResult<&mut GameState<'a>>)
        requires
            f.requires(()),
        ensures
            match result {
                Ok(game) => {
                    &&& exists|word: &'a str, now: Timestamp|
                        #![trigger f.ensures((), Ok(word)), Session::start(word@, now)]
                        f.ensures((), Ok(word)) && game@ == Session::start(word@, now)
                    &&& final(self)@ == Some(final(game)@)
                },
                Err(e) => f.ensures((), Err(e)) && final(self)@ == old(self)@,
            },
    {
        let word = match f() {
            Ok(word) => word,
            Err(e) => {
                return Err(e);
            },
        };
        let now = clock.now();
        Ok(self.start(word, clock, now))
    }
}

} // verus!

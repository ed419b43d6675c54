//! The phase of the session.

use vstd::prelude::*;

verus! {

/// The phase that the session is in. Exactly one is active at a time.
#[derive(Clone, Copy, Debug, PartialEq, Eq, Hash, Structural)]
pub enum GameState {
    Loading,
    MainMenu,
    InGame,
    GameOver,
}

impl GameState {
    /// The phase a session starts in.
    pub open spec fn initial() -> GameState {
        GameState::Loading
    }

    /// The moves between phases that the game makes: from loading to the
    /// menu, from the menu into the game, from the game to its end, and from
    /// there back into the game.
    pub open spec fn allows(self, target: GameState) -> bool {
        match (self, target) {
            (GameState::Loading, GameState::MainMenu) => true,
            (GameState::MainMenu, GameState::InGame) => true,
            (GameState::InGame, GameState::GameOver) => true,
            (GameState::GameOver, GameState::InGame) => true,
            _ => false,
        }
    }

    /// The phase after a request to move to `target`: `target` where the move
    /// is allowed, and the present phase where it is not.
    pub open spec fn after_request(self, target: GameState) -> GameState {
        if self.allows(target) {
            target
        } else {
            self
        }
    }

    /// The phase a session starts in.
    pub fn new() -> (state: GameState)
        ensures
            state == GameState::initial(),
    {
        GameState::Loading
    }

    /// Whether a move from this phase to `target` is one the game makes.
    pub fn can_move_to(&self, target: GameState) -> (allowed: bool)
        ensures
            allowed == self.allows(target),
    {
        match (*self, target) {
            (GameState::Loading, GameState::MainMenu) => true,
            (GameState::MainMenu, GameState::InGame) => true,
            (GameState::InGame, GameState::GameOver) => true,
            (GameState::GameOver, GameState::InGame) => true,
            _ => false,
        }
    }

    /// Asks for a move to `target`. An allowed move is made at once; any
    /// other request changes nothing. Returns whether the phase changed.
    pub fn set(&mut self, target: GameState) -> (changed: bool)
        ensures
            *final(self) == old(self).after_request(target),
            changed == old(self).allows(target),
    {
        if self.can_move_to(target) {
            *self = target;
            true
        } else {
            false
        }
    }
}

/// A request for the phase that is already active changes nothing, and
/// neither does one for a phase that cannot be reached in one move.
pub proof fn lemma_invalid_request_is_ignored(state: GameState, target: GameState)
    ensures
        state.after_request(state) == state,
        !state.allows(target) ==> state.after_request(target) == state,
        state.allows(target) ==> state.after_request(target) == target && target != state,
{
}

/// The game is entered from the menu and from the end of a game and from
/// nowhere else; it is left only for its end.
pub proof fn lemma_ways_in_and_out_of_the_game(state: GameState)
    ensures
        state.allows(GameState::InGame) == (state == GameState::MainMenu || state
            == GameState::GameOver),
        GameState::InGame.allows(state) == (state == GameState::GameOver),
        !state.allows(GameState::Loading),
{
}

} // verus!

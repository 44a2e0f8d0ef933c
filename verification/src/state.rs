//! The states of the game.

use vstd::prelude::*;

verus! {

/// Where the game stands. A game runs from the splash screen over the menu
/// into play, which may be paused and which ends lost or won; from either
/// end the way leads back to the menu.
#[derive(Clone, Copy, Debug, PartialEq, Eq, Hash, Structural)]
pub enum GameState {
    Splash,
    Menu,
    Game,
    Pause,
    GameLost,
    GameWon,
}

impl GameState {
    /// The two states that show an end screen.
    pub open spec fn is_end(self) -> bool {
        self == GameState::GameLost || self == GameState::GameWon
    }

    /// Whether this state shows an end screen.
    pub fn is_end_screen(&self) -> (b: bool)
        ensures
            b == self.is_end(),
    {
        match self {
            GameState::GameLost => true,
            GameState::GameWon => true,
            _ => false,
        }
    }
}

impl Default for GameState {
    /// A game starts on the splash screen.
    fn default() -> (s: GameState)
        ensures
            s == GameState::Splash,
    {
        GameState::Splash
    }
}

} // verus!

//! The states of the game.

use vstd::prelude::*;

verus! {

/// Where the game is: loading its assets, in the menu, in play, or about
/// to start over.
#[derive(Clone, Copy, Debug, PartialEq, Eq, Hash, Structural)]
pub enum GameState {
    Loading,
    Menu,
    Playing,
    Restart,
}

impl Default for GameState {
    /// The game starts by loading.
    fn default() -> (state: GameState)
        ensures
            state == GameState::Loading,
    {
        GameState::Loading
    }
}

impl GameState {
    /// Whether the level exists in this state. The level, its regeneration
    /// and the tank live exactly as long as the game is in play.
    pub fn is_playing(self) -> (playing: bool)
        ensures
            playing <==> self == GameState::Playing,
    {
        match self {
            GameState::Playing => true,
            _ => false,
        }
    }

    /// The state that follows when loading has finished: play begins at
    /// once. Every other state stays as it is.
    pub fn after_loading(self) -> (next: GameState)
        ensures
            next == if self == GameState::Loading {
                GameState::Playing
            } else {
                self
            },
    {
        match self {
            GameState::Loading => GameState::Playing,
            other => other,
        }
    }
}

} // verus!

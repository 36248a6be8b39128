//! The phase the whole game is in.

use vstd::prelude::*;

verus! {

/// What the game as a whole is doing; systems outside the rules switch on it.
#[derive(Clone, Copy, PartialEq, Eq, Structural, Debug, Hash)]
pub enum GameState {
    /// A level is being swapped in; the player is held still.
    Loading,
    /// The opening texts are on screen.
    Prelude,
    /// A scripted scene plays.
    Cutscene,
    /// The player walks the level.
    InGame,
    /// A menu or a dialogue has the input.
    UI,
    /// An enemy reached the player.
    GameOver,
}

} // verus!

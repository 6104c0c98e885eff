//! The top-level screens of the game and what ends a run.

use vstd::prelude::*;

verus! {

/// Which screen the game is on. The host engine swaps its systems in and
/// out on these states; the library only decides which state comes next.
#[derive(Clone, Copy, PartialEq, Eq, Structural, Debug)]
pub enum GameState {
    Menu,
    Playing,
    Paused,
    Exit,
}

/// The ways a run can end while on the playing screen.
#[derive(Clone, Copy, PartialEq, Eq, Structural, Debug)]
pub enum RunEnd {
    /// The session-wide timer ran out.
    SessionTimeout,
    /// The scoring timer ran out.
    ScoreTimeout,
    /// The player's sprite came too close to a wall.
    WallHit,
}

/// Every way a run ends sends the game back to the title menu.
pub fn state_after_run_end(cause: RunEnd) -> (s: GameState)
    ensures
        s == GameState::Menu,
{
    match cause {
        RunEnd::SessionTimeout => GameState::Menu,
        RunEnd::ScoreTimeout => GameState::Menu,
        RunEnd::WallHit => GameState::Menu,
    }
}

} // verus!

use vstd::prelude::*;

verus! {

/// The game's lifecycle phase; exactly one is active at a time.
#[derive(Clone, Copy, Debug, PartialEq, Eq, Structural)]
pub enum GameState {
    Loading,
    Initializing,
    Gaming,
    Dying,
}

/// Pause between the player's death and the restart, in milliseconds.
pub const RESTART_DELAY: u64 = 3000;

/// The phase that follows `s` once it has finished its work: the cycle Loading,
/// Initializing, Gaming, Dying and back to Loading.
pub open spec fn successor(s: GameState) -> GameState {
    match s {
        GameState::Loading => GameState::Initializing,
        GameState::Initializing => GameState::Gaming,
        GameState::Gaming => GameState::Dying,
        GameState::Dying => GameState::Loading,
    }
}

} // verus!

//! The errors of the bridge.

use vstd::prelude::*;

verus! {

#[derive(Debug, Clone, Copy, PartialEq, Eq, Structural)]
pub enum MahjongFFIError {
    /// A string held a NUL byte and cannot cross the boundary.
    FailedToCreateCString,
    /// The engine refused to create a state for the given settings.
    FailedToAllocateGameState,
    /// The engine's advance returned no successor: the game is over.
    GameEnded,
    /// A thread panicked while holding a handle's lock.
    MutexPoisoned,
    /// The handle's state was already taken by an advance.
    GameStateConsumed,
    /// A snapshot held a count outside the capacity of its array.
    SnapshotCountOutOfRange,
}

} // verus!

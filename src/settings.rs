//! What a caller chooses for a game: a seed and the controller of each seat.

use vstd::prelude::*;

verus! {

/// A seed and, for each of the four seats, the name of a registered controller.
#[derive(Debug, Clone)]
pub struct GameSettings {
    pub seed: u64,
    pub seat_controllers: [String; 4],
}

} // verus!

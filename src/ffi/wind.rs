//! The four winds, whose ordinals the engine's records rely on.

use vstd::prelude::*;

verus! {

#[derive(Clone, Copy, Debug, PartialEq, Eq, Structural)]
pub enum Wind {
    East,
    South,
    West,
    North,
}

/// The wire value of a wind: East 0, South 1, West 2, North 3.
pub open spec fn wind_ordinal(w: Wind) -> u8 {
    match w {
        Wind::East => 0,
        Wind::South => 1,
        Wind::West => 2,
        Wind::North => 3,
    }
}

impl Wind {
    pub fn ordinal(&self) -> (r: u8)
        ensures
            r == wind_ordinal(*self),
    {
        match self {
            Wind::East => 0,
            Wind::South => 1,
            Wind::West => 2,
            Wind::North => 3,
        }
    }
}

} // verus!

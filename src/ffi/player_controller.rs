//! The decision-making agents that sit at the seats, and what of their
//! answers may cross the boundary.

use vstd::prelude::*;

use super::event::Event;
use super::gamesettings::{is_nul_free, nul_free};
use super::piece::Piece;
use super::wind::Wind;

verus! {

/// A seat's decision maker. The engine calls it at the start of the game
/// and of each round, tells it every event, and asks it for a decision
/// when the seat must act or answer.
pub trait PlayerController {
    /// Called when a new game starts
    fn game_start(&mut self, player_id: i32);

    /// Called at the start of a new round
    fn round_start(&mut self, hand: Vec<Piece>, seat_wind: Wind, prevalent_wind: Wind);

    /// Called when an event occurs
    fn receive_event(&mut self, event: Event);

    /// Returns the player's decision as an Event
    fn retrieve_decision(&mut self) -> Event;

    /// Returns the player's name
    fn name(&self) -> String;
}

/// The name to hand across the boundary for a controller: its own name when
/// that can be a C string, else the empty name.
pub fn boundary_name(name: String) -> (r: String)
    ensures
        r@ == (if nul_free(name@) {
            name@
        } else {
            Seq::<char>::empty()
        }),
{
    if is_nul_free(name.as_str()) {
        name
    } else {
        String::new()
    }
}

} // verus!

//! The event record exchanged with the engine on every turn.

use vstd::prelude::*;

verus! {

#[derive(Debug, Clone, Copy, PartialEq, Eq, Structural)]
pub enum EventType {
    // calls on another player's discard
    Ron,
    Kan,
    Pon,
    Chi,
    Decline,
    // actions in one's own turn
    Tsumo,
    ConcealedKan,
    ConvertedKan,
    Riichi,
    Discard,
    // game events
    Dora,
    PointDiff,
    ExhaustiveDraw,
    End,
}

/// An event: its type, the seat it concerns (-1 for none), a piece payload
/// (0 for none) and whether it is a yes/no answer rather than an action.
#[derive(Debug, Clone, Copy, PartialEq, Eq, Structural)]
pub struct Event {
    pub event_type: EventType,
    pub player: i32,
    pub piece: i16,
    pub decision: bool,
}

impl Event {
    /// The canonical refusal: type `Decline`, no player, no piece.
    pub fn decline() -> (r: Self)
        ensures
            r == (Event { event_type: EventType::Decline, player: -1i32, piece: 0i16, decision: false }),
    {
        Event { event_type: EventType::Decline, player: -1, piece: 0, decision: false }
    }

    /// An action of the given type on a piece, for seat 0.
    pub fn action(event: EventType, piece: i16) -> (r: Self)
        ensures
            r == (Event { event_type: event, player: 0, piece, decision: false }),
    {
        Event { event_type: event, player: 0, piece, decision: false }
    }
}

} // verus!

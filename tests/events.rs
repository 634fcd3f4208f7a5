use mahjong_ffi::ffi::event::{Event, EventType};
use mahjong_ffi::ffi::wind::Wind;
use mahjong_ffi::ffi::piece::Piece;

#[test]
fn decline_is_canonical() {
    let d = Event::decline();
    assert_eq!(d.event_type, EventType::Decline);
    assert_eq!(d.player, -1);
    assert_eq!(d.piece, 0);
    assert!(!d.decision);
}

#[test]
fn action_carries_type_and_piece() {
    let a = Event::action(EventType::Discard, 0x23);
    assert_eq!(
        a,
        Event { event_type: EventType::Discard, player: 0, piece: 0x23, decision: false }
    );
    assert_ne!(a, Event::decline());
}

#[test]
fn wind_ordinals_are_stable() {
    assert_eq!(Wind::East.ordinal(), 0);
    assert_eq!(Wind::South.ordinal(), 1);
    assert_eq!(Wind::West.ordinal(), 2);
    assert_eq!(Wind::North.ordinal(), 3);
    assert_eq!(Piece::from_wind(Wind::West.ordinal()).to_u8(), 3);
}

use mahjong_ffi::ffi::piece::constants::{
    BAMBOO_SUIT, CHARACTER_SUIT, EAST_WIND, EIGHT_PIN, FIVE_BAMBOO, FIVE_PIN, FOUR_CHARACTER,
    GREEN_DRAGON, HONOR_SUIT, NINE_BAMBOO, NINE_CHARACTER, NORTH_WIND, ONE_BAMBOO, ONE_PIN,
    PIN_SUIT, RED_DRAGON, RED_FIVE_BAMBOO, RED_FIVE_PIN, SEVEN_BAMBOO, SIX_BAMBOO, SOUTH_WIND,
    THREE_BAMBOO, TWO_BAMBOO, TWO_PIN, WEST_WIND,
};
use mahjong_ffi::ffi::piece::Piece;
use std::cmp::Ordering;

#[test]
fn null_piece_is_not_a_board_piece() {
    assert!(!Piece::new().is_board_piece());
    assert_eq!(Piece::new().to_u8(), 0);
    assert!(Piece::from_u8(ONE_PIN).is_board_piece());
}

#[test]
fn fields_of_an_encoding() {
    let p = Piece::from_u8(NINE_CHARACTER);
    assert_eq!(p.get_suit(), CHARACTER_SUIT);
    assert_eq!(p.get_piece_num(), 9);
    assert!(p.is_terminal());
    assert!(!p.is_honor());
    assert!(!p.is_red_five());
    assert_eq!(p.raw_value(), 0xE9);
    let r = Piece::from_u8(RED_FIVE_PIN);
    assert_eq!(r.get_suit(), PIN_SUIT);
    assert_eq!(r.get_piece_num(), 5);
    assert!(r.is_red_five());
    assert!(Piece::from_u8(RED_DRAGON).is_honor());
}

#[test]
fn green_pieces() {
    for p in [TWO_BAMBOO, THREE_BAMBOO, 0x24, SIX_BAMBOO, 0x28, GREEN_DRAGON] {
        assert!(Piece::from_u8(p).is_green(), "{p:#x}");
    }
    for p in [ONE_BAMBOO, FIVE_BAMBOO, SEVEN_BAMBOO, NINE_BAMBOO, TWO_PIN, RED_DRAGON, 0] {
        assert!(!Piece::from_u8(p).is_green(), "{p:#x}");
    }
}

#[test]
fn wind_pieces() {
    assert_eq!(Piece::from_wind(0).to_u8(), EAST_WIND);
    assert_eq!(Piece::from_wind(1).to_u8(), SOUTH_WIND);
    assert_eq!(Piece::from_wind(2).to_u8(), WEST_WIND);
    assert_eq!(Piece::from_wind(3).to_u8(), NORTH_WIND);
    assert_eq!(Piece::from_wind(4).to_u8(), 0);
}

#[test]
fn forming_pieces() {
    assert_eq!(Piece::form_piece(BAMBOO_SUIT, 1, false).to_u8(), ONE_BAMBOO);
    assert_eq!(Piece::form_piece(CHARACTER_SUIT, 9, false).to_u8(), NINE_CHARACTER);
    assert_eq!(Piece::form_piece(BAMBOO_SUIT, 5, true).to_u8(), RED_FIVE_BAMBOO);
    assert_eq!(Piece::form_piece(PIN_SUIT, 4, true).to_u8(), 0x44);
    assert_eq!(Piece::form_piece(HONOR_SUIT, 7, false).to_u8(), GREEN_DRAGON);
}

#[test]
fn adding_ranks() {
    assert_eq!(Piece::from_u8(TWO_PIN).add(3).to_u8(), FIVE_PIN);
    assert_eq!(Piece::from_u8(ONE_BAMBOO).add(8).to_u8(), NINE_BAMBOO);
    assert_eq!(Piece::from_u8(ONE_BAMBOO).add(1).to_u8(), TWO_BAMBOO);
    assert_eq!(Piece::from_u8(RED_FIVE_PIN).add(1).to_u8(), 0x46);
    assert_eq!(Piece::from_u8(NINE_BAMBOO).add(1).to_u8(), 0);
    assert_eq!(Piece::from_u8(EIGHT_PIN).add(250).to_u8(), 0);
    assert_eq!(Piece::from_u8(EAST_WIND).add(1).to_u8(), 0);
    assert_eq!(Piece::new().add(1).to_u8(), 0);
}

#[test]
fn subtracting_ranks() {
    assert_eq!(Piece::from_u8(FIVE_PIN).subtract(3).to_u8(), TWO_PIN);
    assert_eq!(Piece::from_u8(TWO_PIN).subtract(1).to_u8(), ONE_PIN);
    assert_eq!(Piece::from_u8(NINE_BAMBOO).subtract(1).to_u8(), 0x28);
    assert_eq!(Piece::from_u8(RED_FIVE_BAMBOO).subtract(1).to_u8(), 0x24);
    assert_eq!(Piece::from_u8(ONE_PIN).subtract(1).to_u8(), 0);
    assert_eq!(Piece::from_u8(FOUR_CHARACTER).subtract(200).to_u8(), 0);
    assert_eq!(Piece::from_u8(SOUTH_WIND).subtract(1).to_u8(), 0);
}

#[test]
fn stepping_by_zero_is_identity() {
    for raw in [0u8, ONE_PIN, RED_FIVE_PIN, NORTH_WIND, 0xFF] {
        assert_eq!(Piece::from_u8(raw).add(0).to_u8(), raw);
        assert_eq!(Piece::from_u8(raw).subtract(0).to_u8(), raw);
    }
}

#[test]
fn add_then_subtract_round_trips() {
    for suit in [BAMBOO_SUIT, PIN_SUIT, CHARACTER_SUIT] {
        for rank in 1u8..=9 {
            for red in [false, true] {
                let p = Piece::form_piece(suit, rank, red);
                for n in 0..=(9 - rank) {
                    let up = p.add(n);
                    assert!(up.is_board_piece());
                    assert!(up.subtract(n) == p, "{:#x} by {}", p.to_u8(), n);
                }
            }
        }
    }
}

#[test]
fn red_five_equals_plain_five() {
    for suit in [BAMBOO_SUIT, PIN_SUIT, CHARACTER_SUIT] {
        let red = Piece::form_piece(suit, 5, true);
        let plain = Piece::form_piece(suit, 5, false);
        assert!(red == plain);
        assert_ne!(red.to_u8(), plain.to_u8());
        assert_eq!(red.partial_cmp(&plain), Some(Ordering::Equal));
    }
}

#[test]
fn ordering_follows_encoding() {
    let two = Piece::from_u8(TWO_PIN);
    let five = Piece::from_u8(FIVE_PIN);
    assert!(two < five);
    assert!(Piece::from_u8(RED_FIVE_PIN) > two);
    assert!(Piece::from_u8(EAST_WIND) < Piece::from_u8(ONE_BAMBOO));
    assert!(two != five);
}

#[test]
fn increment_steps_the_encoding() {
    let mut p = Piece::from_u8(TWO_PIN);
    p.increment();
    assert_eq!(p.to_u8(), TWO_PIN + 1);
}

//! Bit layout of a piece byte and the encodings of every board piece.

use vstd::prelude::*;

verus! {

pub const TERMINAL_BIT: u8 = 0x80;
pub const HONOR_SUIT: u8 = 0x00;
pub const BAMBOO_SUIT: u8 = 0x20;
pub const PIN_SUIT: u8 = 0x40;
pub const CHARACTER_SUIT: u8 = 0x60;
pub const RED_FIVE: u8 = 0x10;
pub const ERROR: u8 = 0;

/// Mask of the two suit bits.
pub const SUIT_MASK: u8 = 0x60;
/// Mask of the four rank bits.
pub const RANK_MASK: u8 = 0x0F;

pub const ONE_BAMBOO: u8 = 0xA1;
pub const TWO_BAMBOO: u8 = 0x22;
pub const THREE_BAMBOO: u8 = 0x23;
pub const FOUR_BAMBOO: u8 = 0x24;
pub const FIVE_BAMBOO: u8 = 0x25;
pub const RED_FIVE_BAMBOO: u8 = 0x35;
pub const SIX_BAMBOO: u8 = 0x26;
pub const SEVEN_BAMBOO: u8 = 0x27;
pub const EIGHT_BAMBOO: u8 = 0x28;
pub const NINE_BAMBOO: u8 = 0xA9;

pub const ONE_PIN: u8 = 0xC1;
pub const TWO_PIN: u8 = 0x42;
pub const THREE_PIN: u8 = 0x43;
pub const FOUR_PIN: u8 = 0x44;
pub const FIVE_PIN: u8 = 0x45;
pub const RED_FIVE_PIN: u8 = 0x55;
pub const SIX_PIN: u8 = 0x46;
pub const SEVEN_PIN: u8 = 0x47;
pub const EIGHT_PIN: u8 = 0x48;
pub const NINE_PIN: u8 = 0xC9;

pub const ONE_CHARACTER: u8 = 0xE1;
pub const TWO_CHARACTER: u8 = 0x62;
pub const THREE_CHARACTER: u8 = 0x63;
pub const FOUR_CHARACTER: u8 = 0x64;
pub const FIVE_CHARACTER: u8 = 0x65;
pub const RED_FIVE_CHARACTER: u8 = 0x75;
pub const SIX_CHARACTER: u8 = 0x66;
pub const SEVEN_CHARACTER: u8 = 0x67;
pub const EIGHT_CHARACTER: u8 = 0x68;
pub const NINE_CHARACTER: u8 = 0xE9;

pub const EAST_WIND: u8 = 0x01;
pub const SOUTH_WIND: u8 = 0x02;
pub const WEST_WIND: u8 = 0x03;
pub const NORTH_WIND: u8 = 0x04;
pub const RED_DRAGON: u8 = 0x05;
pub const WHITE_DRAGON: u8 = 0x06;
pub const GREEN_DRAGON: u8 = 0x07;

} // verus!

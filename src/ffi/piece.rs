//! One-byte encoding of a board piece.
//!
//! Bit 7 is the terminal flag, bits 6 and 5 the suit, bit 4 the red-five
//! flag and bits 3 to 0 the rank. The all-zero byte is the null piece.

pub mod constants;

use std::cmp::Ordering;

use vstd::prelude::*;

use self::constants::{
    EAST_WIND, EIGHT_BAMBOO, ERROR, FOUR_BAMBOO, GREEN_DRAGON, HONOR_SUIT, NORTH_WIND, RANK_MASK,
    RED_FIVE, SIX_BAMBOO, SOUTH_WIND, SUIT_MASK, TERMINAL_BIT, THREE_BAMBOO, TWO_BAMBOO, WEST_WIND,
};

verus! {

/// The suit bits of an encoded piece.
pub open spec fn suit_of(p: u8) -> u8 {
    p & 0x60
}

/// The rank bits of an encoded piece.
pub open spec fn rank_of(p: u8) -> u8 {
    p & 0x0F
}

/// Whether the terminal flag of an encoded piece is set.
pub open spec fn terminal_flag(p: u8) -> bool {
    p & 0x80 != 0
}

/// Whether the red-five flag of an encoded piece is set.
pub open spec fn red_five_flag(p: u8) -> bool {
    p & 0x10 != 0
}

/// What equality and ordering look at: the byte with the red-five flag
/// forced on, so that a red five and a plain five share it.
pub open spec fn comparison_key(p: u8) -> u8 {
    p | 0x10
}

/// The piece of the suit of `p` at rank `r`: red-five flag clear, terminal
/// flag set exactly when `r` is 1 or 9.
pub open spec fn at_rank(p: u8, r: u8) -> u8 {
    (p & 0x60) | r | (if r == 1 || r == 9 { 0x80u8 } else { 0u8 })
}

/// `p` moved `i` ranks up; the null piece for an honor or past rank 9.
pub open spec fn added(p: u8, i: u8) -> u8 {
    if i == 0 {
        p
    } else if suit_of(p) == 0 || rank_of(p) + i > 9 {
        0
    } else {
        at_rank(p, (rank_of(p) + i) as u8)
    }
}

/// `p` moved `i` ranks down; the null piece for an honor or outside ranks 1 to 9.
pub open spec fn subtracted(p: u8, i: u8) -> u8 {
    if i == 0 {
        p
    } else if suit_of(p) == 0 || rank_of(p) < i + 1 || rank_of(p) - i > 9 {
        0
    } else {
        at_rank(p, (rank_of(p) - i) as u8)
    }
}

/// The encodings that count as green: 2, 3, 4, 6 and 8 of bamboo and the green dragon.
pub open spec fn is_green_encoding(p: u8) -> bool {
    p == 0x22 || p == 0x23 || p == 0x24 || p == 0x26 || p == 0x28 || p == 0x07
}

/// The wind honor of a wind ordinal (East 0 to North 3); the null piece otherwise.
pub open spec fn wind_piece(wind: u8) -> u8 {
    if wind < 4 {
        (wind + 1) as u8
    } else {
        0
    }
}

/// The piece built from a suit and a rank, with the terminal flag for
/// ranks 1 and 9 and the red-five flag when asked for on a five.
pub open spec fn formed(suit: u8, number: u8, red: bool) -> u8 {
    suit | number | (if number == 1 || number == 9 { 0x80u8 } else { 0u8 }) | (if red
        && number == 5 { 0x10u8 } else { 0u8 })
}

/// A piece whose flags agree with its rank: a rank from 1 to 9 and the
/// terminal flag set exactly on 1 and 9.
pub open spec fn well_formed(p: u8) -> bool {
    1 <= rank_of(p) <= 9 && terminal_flag(p) == (rank_of(p) == 1 || rank_of(p) == 9)
}

#[derive(Clone, Copy, Debug)]
pub struct Piece {
    p: u8,
}

impl View for Piece {
    type V = u8;

    closed spec fn view(&self) -> u8 {
        self.p
    }
}

impl Piece {
    pub const PIECE_SIZE: usize = 256;

    /// The null piece.
    pub fn new() -> (r: Self)
        ensures
            r@ == 0,
    {
        Self { p: ERROR }
    }

    pub fn from_u8(p: u8) -> (r: Self)
        ensures
            r@ == p,
    {
        Self { p }
    }

    pub fn is_honor(&self) -> (r: bool)
        ensures
            r == (suit_of(self@) == 0),
    {
        self.get_suit() == HONOR_SUIT
    }

    pub fn is_terminal(&self) -> (r: bool)
        ensures
            r == terminal_flag(self@),
    {
        (self.p & TERMINAL_BIT) != 0
    }

    pub fn is_green(&self) -> (r: bool)
        ensures
            r == is_green_encoding(self@),
    {
        self.p == TWO_BAMBOO || self.p == THREE_BAMBOO || self.p == FOUR_BAMBOO || self.p
            == SIX_BAMBOO || self.p == EIGHT_BAMBOO || self.p == GREEN_DRAGON
    }

    pub fn is_red_five(&self) -> (r: bool)
        ensures
            r == red_five_flag(self@),
    {
        (self.p & RED_FIVE) != 0
    }

    /// False only for the null piece.
    pub fn is_board_piece(&self) -> (r: bool)
        ensures
            r == (self@ != 0),
    {
        self.p != ERROR
    }

    pub fn to_u8(&self) -> (r: u8)
        ensures
            r == self@,
    {
        self.p
    }

    pub fn raw_value(&self) -> (r: u8)
        ensures
            r == self@,
    {
        self.p
    }

    /// One of `HONOR_SUIT`, `BAMBOO_SUIT`, `PIN_SUIT` and `CHARACTER_SUIT`.
    pub fn get_suit(&self) -> (r: u8)
        ensures
            r == suit_of(self@),
    {
        self.p & SUIT_MASK
    }

    pub fn get_piece_num(&self) -> (r: u8)
        ensures
            r == rank_of(self@),
    {
        self.p & RANK_MASK
    }

    /// The wind honor for a wind ordinal; the null piece for any other byte.
    pub fn from_wind(wind: u8) -> (r: Self)
        ensures
            r@ == wind_piece(wind),
    {
        match wind {
            0 => Self { p: EAST_WIND },
            1 => Self { p: SOUTH_WIND },
            2 => Self { p: WEST_WIND },
            3 => Self { p: NORTH_WIND },
            _ => Self { p: ERROR },
        }
    }

    pub fn form_piece(suit: u8, number: u8, is_red_five: bool) -> (r: Self)
        ensures
            r@ == formed(suit, number, is_red_five),
    {
        let terminal: u8 = if number == 1 || number == 9 {
            TERMINAL_BIT
        } else {
            0
        };
        let red: u8 = if is_red_five && number == 5 {
            RED_FIVE
        } else {
            0
        };
        let p = suit | number | terminal | red;
        Self { p }
    }

    /// Steps the raw encoding by one.
    pub fn increment(&mut self)
        requires
            old(self)@ < 255,
        ensures
            final(self)@ == old(self)@ + 1,
    {
        self.p = self.p + 1;
    }

    /// The piece `i` ranks up, or the null piece (see `added`).
    pub fn add(&self, i: u8) -> (r: Self)
        ensures
            r@ == added(self@, i),
    {
        if i == 0 {
            return Self { p: self.p };
        }
        let num = self.get_piece_num();
        if self.is_honor() || num > 9 || i > 9 - num {
            return Self { p: ERROR };
        }
        let n: u8 = num + i;
        Self::with_rank(self.p, n)
    }

    /// The piece `i` ranks down, or the null piece (see `subtracted`).
    pub fn subtract(&self, i: u8) -> (r: Self)
        ensures
            r@ == subtracted(self@, i),
    {
        if i == 0 {
            return Self { p: self.p };
        }
        let num = self.get_piece_num();
        if self.is_honor() || num <= i || num - i > 9 {
            return Self { p: ERROR };
        }
        let n: u8 = num - i;
        Self::with_rank(self.p, n)
    }

    fn with_rank(p: u8, r: u8) -> (out: Self)
        requires
            r <= 9,
        ensures
            out@ == at_rank(p, r),
    {
        let base = (p & SUIT_MASK) | r;
        if r == 1 || r == 9 {
            assert(base | 0x80 == at_rank(p, r)) by (bit_vector)
                requires
                    base == (p & 0x60) | r,
                    r == 1 || r == 9,
            ;
            Self { p: base | TERMINAL_BIT }
        } else {
            assert(base == at_rank(p, r)) by (bit_vector)
                requires
                    base == (p & 0x60) | r,
                    r != 1 && r != 9,
            ;
            Self { p: base }
        }
    }
}

impl PartialEq for Piece {
    /// Equality that ignores the red-five flag.
    fn eq(&self, other: &Piece) -> (r: bool) {
        (self.p | RED_FIVE) == (other.p | RED_FIVE)
    }
}

impl vstd::std_specs::cmp::PartialEqSpecImpl for Piece {
    open spec fn obeys_eq_spec() -> bool {
        true
    }

    open spec fn eq_spec(&self, other: &Piece) -> bool {
        comparison_key(self@) == comparison_key(other@)
    }
}

impl Eq for Piece {

}

impl PartialOrd for Piece {
    /// Ordering by the encoding, ignoring the red-five flag.
    fn partial_cmp(&self, other: &Piece) -> (r: Option<Ordering>) {
        let a = self.p | RED_FIVE;
        let b = other.p | RED_FIVE;
        if a < b {
            Some(Ordering::Less)
        } else if a > b {
            Some(Ordering::Greater)
        } else {
            Some(Ordering::Equal)
        }
    }
}

impl vstd::std_specs::cmp::PartialOrdSpecImpl for Piece {
    open spec fn obeys_partial_cmp_spec() -> bool {
        true
    }

    open spec fn partial_cmp_spec(&self, other: &Piece) -> Option<Ordering> {
        let a = comparison_key(self@);
        let b = comparison_key(other@);
        if a < b {
            Some(Ordering::Less)
        } else if a > b {
            Some(Ordering::Greater)
        } else {
            Some(Ordering::Equal)
        }
    }
}

/// Stepping a piece `n` ranks up and then `n` ranks down gives back a piece
/// equal to it (equal as `==` on pieces compares), whenever the step up
/// lands on a board piece and `n` is at most 9 minus its rank. For a
/// non-zero step the piece's flags must agree with its rank.
pub proof fn lemma_add_subtract_round_trip(p: Piece, n: u8)
    requires
        added(p@, n) != 0,
        n <= 9 - rank_of(p@),
        n == 0 || well_formed(p@),
    ensures
        comparison_key(subtracted(added(p@, n), n)) == comparison_key(p@),
{
    let b = p@;
    assert(comparison_key(subtracted(added(b, n), n)) == comparison_key(b)) by (bit_vector)
        requires
            added(b, n) != 0,
            n <= 9 - rank_of(b),
            n == 0 || well_formed(b),
    ;
}

/// A red five and a plain five of the same suit compare equal, while their
/// encodings differ.
pub proof fn lemma_red_five_equality(suit: u8)
    requires
        suit_of(suit) == suit,
    ensures
        comparison_key(formed(suit, 5, true)) == comparison_key(formed(suit, 5, false)),
        formed(suit, 5, true) != formed(suit, 5, false),
{
    assert(comparison_key(formed(suit, 5, true)) == comparison_key(formed(suit, 5, false))
        && formed(suit, 5, true) != formed(suit, 5, false)) by (bit_vector)
        requires
            suit_of(suit) == suit,
    ;
}

} // verus!

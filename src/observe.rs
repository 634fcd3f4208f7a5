//! Owned, variable-length views of an engine snapshot, and the decoder that
//! builds them from the fixed-capacity wire records.

use vstd::prelude::*;

use crate::ffi::error::MahjongFFIError;
use crate::ffi::observe::{
    CHand, CMeld, CMeldType, CObservedGameState, CStateFunctionType, MAX_DISCARDS_PER_PLAYER,
    MAX_LIVE_HAND_SIZE, MAX_MELDS_PER_HAND,
};

verus! {

broadcast use vstd::array::group_array_axioms;

#[derive(Debug, Clone, Copy, PartialEq, Eq, Structural)]
pub enum MeldType {
    Chi,
    Pon,
    Kan,
    ConcealedKan,
}

pub open spec fn meld_type_of(c: CMeldType) -> MeldType {
    match c {
        CMeldType::Chi => MeldType::Chi,
        CMeldType::Pon => MeldType::Pon,
        CMeldType::Kan => MeldType::Kan,
        CMeldType::ConcealedKan => MeldType::ConcealedKan,
    }
}

impl From<CMeldType> for MeldType {
    fn from(c_meld_type: CMeldType) -> Self {
        match c_meld_type {
            CMeldType::Chi => MeldType::Chi,
            CMeldType::Pon => MeldType::Pon,
            CMeldType::Kan => MeldType::Kan,
            CMeldType::ConcealedKan => MeldType::ConcealedKan,
        }
    }
}

impl vstd::std_specs::convert::FromSpecImpl<CMeldType> for MeldType {
    open spec fn obeys_from_spec() -> bool {
        true
    }

    open spec fn from_spec(v: CMeldType) -> MeldType {
        meld_type_of(v)
    }
}

/// Where the engine's state machine stands. `Error` doubles as "no valid
/// observation" (not started, or stopped abnormally); `GameEnd` is the one
/// terminal label of a finished match.
#[derive(Debug, Clone, Copy, PartialEq, Eq, Structural)]
pub enum StateFunctionType {
    Error,
    GameStart,
    RoundStart,
    Draw,
    PlayerHand,
    Pon,
    Chi,
    Kan,
    ConcealedKan,
    ConvertedKan,
    KanDiscard,
    Replacement,
    Riichi,
    Discard,
    Exhaust,
    Ron,
    Tsumo,
    RoundEnd,
    GameEnd,
}

pub open spec fn state_of(c: CStateFunctionType) -> StateFunctionType {
    match c {
        CStateFunctionType::Error => StateFunctionType::Error,
        CStateFunctionType::GameStart => StateFunctionType::GameStart,
        CStateFunctionType::RoundStart => StateFunctionType::RoundStart,
        CStateFunctionType::Draw => StateFunctionType::Draw,
        CStateFunctionType::PlayerHand => StateFunctionType::PlayerHand,
        CStateFunctionType::Pon => StateFunctionType::Pon,
        CStateFunctionType::Chi => StateFunctionType::Chi,
        CStateFunctionType::Kan => StateFunctionType::Kan,
        CStateFunctionType::ConcealedKan => StateFunctionType::ConcealedKan,
        CStateFunctionType::ConvertedKan => StateFunctionType::ConvertedKan,
        CStateFunctionType::KanDiscard => StateFunctionType::KanDiscard,
        CStateFunctionType::Replacement => StateFunctionType::Replacement,
        CStateFunctionType::Riichi => StateFunctionType::Riichi,
        CStateFunctionType::Discard => StateFunctionType::Discard,
        CStateFunctionType::Exhaust => StateFunctionType::Exhaust,
        CStateFunctionType::Ron => StateFunctionType::Ron,
        CStateFunctionType::Tsumo => StateFunctionType::Tsumo,
        CStateFunctionType::RoundEnd => StateFunctionType::RoundEnd,
        CStateFunctionType::GameEnd => StateFunctionType::GameEnd,
    }
}

impl From<CStateFunctionType> for StateFunctionType {
    fn from(c_state_type: CStateFunctionType) -> Self {
        match c_state_type {
            CStateFunctionType::Error => StateFunctionType::Error,
            CStateFunctionType::GameStart => StateFunctionType::GameStart,
            CStateFunctionType::RoundStart => StateFunctionType::RoundStart,
            CStateFunctionType::Draw => StateFunctionType::Draw,
            CStateFunctionType::PlayerHand => StateFunctionType::PlayerHand,
            CStateFunctionType::Pon => StateFunctionType::Pon,
            CStateFunctionType::Chi => StateFunctionType::Chi,
            CStateFunctionType::Kan => StateFunctionType::Kan,
            CStateFunctionType::ConcealedKan => StateFunctionType::ConcealedKan,
            CStateFunctionType::ConvertedKan => StateFunctionType::ConvertedKan,
            CStateFunctionType::KanDiscard => StateFunctionType::KanDiscard,
            CStateFunctionType::Replacement => StateFunctionType::Replacement,
            CStateFunctionType::Riichi => StateFunctionType::Riichi,
            CStateFunctionType::Discard => StateFunctionType::Discard,
            CStateFunctionType::Exhaust => StateFunctionType::Exhaust,
            CStateFunctionType::Ron => StateFunctionType::Ron,
            CStateFunctionType::Tsumo => StateFunctionType::Tsumo,
            CStateFunctionType::RoundEnd => StateFunctionType::RoundEnd,
            CStateFunctionType::GameEnd => StateFunctionType::GameEnd,
        }
    }
}

impl vstd::std_specs::convert::FromSpecImpl<CStateFunctionType> for StateFunctionType {
    open spec fn obeys_from_spec() -> bool {
        true
    }

    open spec fn from_spec(v: CStateFunctionType) -> StateFunctionType {
        state_of(v)
    }
}

#[derive(Debug, Clone, Copy, PartialEq, Eq, Structural)]
pub struct Meld {
    pub meld_type: MeldType,
    pub start: i32,
}

pub open spec fn meld_of(c: CMeld) -> Meld {
    Meld { meld_type: meld_type_of(c.meld_type), start: c.start }
}

impl From<CMeld> for Meld {
    fn from(c_meld: CMeld) -> Self {
        Self { meld_type: MeldType::from(c_meld.meld_type), start: c_meld.start }
    }
}

impl vstd::std_specs::convert::FromSpecImpl<CMeld> for Meld {
    open spec fn obeys_from_spec() -> bool {
        true
    }

    open spec fn from_spec(v: CMeld) -> Meld {
        meld_of(v)
    }
}

#[derive(Debug, Clone, PartialEq, Eq)]
pub struct Hand {
    pub live_pieces: Vec<i32>,
    pub melds: Vec<Meld>,
    pub discards: Vec<i32>,
    pub open: bool,
    pub riichi: bool,
    pub riichi_piece_discard: i32,
    pub riichi_round: i32,
}

/// A count that lies within the capacity of its array.
pub open spec fn count_fits(count: i32, capacity: usize) -> bool {
    0 <= count <= capacity
}

/// Every count of a wire hand lies within its array's capacity.
pub open spec fn hand_counts_fit(c: CHand) -> bool {
    &&& count_fits(c.live_piece_count, MAX_LIVE_HAND_SIZE)
    &&& count_fits(c.meld_count, MAX_MELDS_PER_HAND)
    &&& count_fits(c.discard_count, MAX_DISCARDS_PER_PLAYER)
}

/// `h` is the wire hand `c` with each array cut to its count.
pub open spec fn decodes_hand(c: CHand, h: Hand) -> bool {
    &&& h.live_pieces@ == c.live_pieces@.subrange(0, c.live_piece_count as int)
    &&& h.melds@ == c.melds@.subrange(0, c.meld_count as int).map_values(|m: CMeld| meld_of(m))
    &&& h.discards@ == c.discards@.subrange(0, c.discard_count as int)
    &&& h.open == c.open
    &&& h.riichi == c.riichi
    &&& h.riichi_piece_discard == c.riichi_piece_discard
    &&& h.riichi_round == c.riichi_round
}

/// The first `count` entries of an array of pieces.
fn pieces_prefix<const N: usize>(pieces: &[i32; N], count: usize) -> (r: Vec<i32>)
    requires
        count <= N,
    ensures
        r@ == pieces@.subrange(0, count as int),
{
    let mut r: Vec<i32> = Vec::new();
    let mut i: usize = 0;
    while i < count
        invariant
            count <= N,
            i <= count,
            r@ == pieces@.subrange(0, i as int),
        decreases count - i,
    {
        r.push(pieces[i]);
        i = i + 1;
        assert(r@ =~= pieces@.subrange(0, i as int));
    }
    r
}

/// The first `count` entries of an array of wire melds, decoded.
fn melds_prefix(melds: &[CMeld; MAX_MELDS_PER_HAND], count: usize) -> (r: Vec<Meld>)
    requires
        count <= MAX_MELDS_PER_HAND,
    ensures
        r@ == melds@.subrange(0, count as int).map_values(|m: CMeld| meld_of(m)),
{
    let mut r: Vec<Meld> = Vec::new();
    let mut i: usize = 0;
    while i < count
        invariant
            count <= MAX_MELDS_PER_HAND,
            i <= count,
            r@ == melds@.subrange(0, i as int).map_values(|m: CMeld| meld_of(m)),
        decreases count - i,
    {
        r.push(Meld::from(melds[i]));
        i = i + 1;
        assert(r@ =~= melds@.subrange(0, i as int).map_values(|m: CMeld| meld_of(m)));
    }
    r
}

impl Hand {
    /// Decodes a wire hand, keeping of each array only the entries its count
    /// covers. A count outside its array's capacity is a broken snapshot.
    pub fn from_wire(c_hand: &CHand) -> (r: Result<Hand, MahjongFFIError>)
        ensures
            match r {
                Ok(h) => hand_counts_fit(*c_hand) && decodes_hand(*c_hand, h),
                Err(e) => !hand_counts_fit(*c_hand) && e == MahjongFFIError::SnapshotCountOutOfRange,
            },
    {
        if c_hand.live_piece_count < 0 || c_hand.live_piece_count as usize > MAX_LIVE_HAND_SIZE
            || c_hand.meld_count < 0 || c_hand.meld_count as usize > MAX_MELDS_PER_HAND
            || c_hand.discard_count < 0 || c_hand.discard_count as usize
            > MAX_DISCARDS_PER_PLAYER {
            return Err(MahjongFFIError::SnapshotCountOutOfRange);
        }
        let live_pieces = pieces_prefix(&c_hand.live_pieces, c_hand.live_piece_count as usize);
        let melds = melds_prefix(&c_hand.melds, c_hand.meld_count as usize);
        let discards = pieces_prefix(&c_hand.discards, c_hand.discard_count as usize);
        Ok(Hand {
            live_pieces,
            melds,
            discards,
            open: c_hand.open,
            riichi: c_hand.riichi,
            riichi_piece_discard: c_hand.riichi_piece_discard,
            riichi_round: c_hand.riichi_round,
        })
    }

    /// Get the number of live pieces in the hand
    pub fn live_piece_count(&self) -> (r: usize)
        ensures
            r == self.live_pieces@.len(),
    {
        self.live_pieces.len()
    }

    /// Get the number of melds in the hand
    pub fn meld_count(&self) -> (r: usize)
        ensures
            r == self.melds@.len(),
    {
        self.melds.len()
    }

    /// Get the number of discards in the hand
    pub fn discard_count(&self) -> (r: usize)
        ensures
            r == self.discards@.len(),
    {
        self.discards.len()
    }

    /// Appends a piece to the live pieces.
    pub fn add_live_piece(&mut self, piece: i32)
        ensures
            final(self).live_pieces@ == old(self).live_pieces@.push(piece),
            final(self).melds@ == old(self).melds@,
            final(self).discards@ == old(self).discards@,
            final(self).open == old(self).open,
            final(self).riichi == old(self).riichi,
            final(self).riichi_piece_discard == old(self).riichi_piece_discard,
            final(self).riichi_round == old(self).riichi_round,
    {
        self.live_pieces.push(piece);
    }

    /// Appends a meld.
    pub fn add_meld(&mut self, meld: Meld)
        ensures
            final(self).live_pieces@ == old(self).live_pieces@,
            final(self).melds@ == old(self).melds@.push(meld),
            final(self).discards@ == old(self).discards@,
            final(self).open == old(self).open,
            final(self).riichi == old(self).riichi,
            final(self).riichi_piece_discard == old(self).riichi_piece_discard,
            final(self).riichi_round == old(self).riichi_round,
    {
        self.melds.push(meld);
    }

    /// Appends a piece to the discards.
    pub fn add_discard(&mut self, piece: i32)
        ensures
            final(self).live_pieces@ == old(self).live_pieces@,
            final(self).melds@ == old(self).melds@,
            final(self).discards@ == old(self).discards@.push(piece),
            final(self).open == old(self).open,
            final(self).riichi == old(self).riichi,
            final(self).riichi_piece_discard == old(self).riichi_piece_discard,
            final(self).riichi_round == old(self).riichi_round,
    {
        self.discards.push(piece);
    }
}

/// Decoding reads only what the counts cover: two wire hands whose counts
/// fit and agree, and that agree on the covered entries and on the flags,
/// decode to hands with the same contents, whatever fills the rest of their
/// arrays; and each decoded collection is exactly as long as its count.
pub proof fn lemma_decode_ignores_unused_capacity(c1: CHand, c2: CHand, h1: Hand, h2: Hand)
    requires
        hand_counts_fit(c1),
        c2.live_piece_count == c1.live_piece_count,
        c2.meld_count == c1.meld_count,
        c2.discard_count == c1.discard_count,
        forall|i: int| 0 <= i < c1.live_piece_count ==> c2.live_pieces@[i] == c1.live_pieces@[i],
        forall|i: int| 0 <= i < c1.meld_count ==> c2.melds@[i] == c1.melds@[i],
        forall|i: int| 0 <= i < c1.discard_count ==> c2.discards@[i] == c1.discards@[i],
        c2.open == c1.open,
        c2.riichi == c1.riichi,
        c2.riichi_piece_discard == c1.riichi_piece_discard,
        c2.riichi_round == c1.riichi_round,
        decodes_hand(c1, h1),
        decodes_hand(c2, h2),
    ensures
        h1.live_pieces@ == h2.live_pieces@,
        h1.melds@ == h2.melds@,
        h1.discards@ == h2.discards@,
        h1.live_pieces@.len() == c1.live_piece_count,
        h1.melds@.len() == c1.meld_count,
        h1.discards@.len() == c1.discard_count,
{
    assert(c1.live_pieces@.subrange(0, c1.live_piece_count as int) =~= c2.live_pieces@.subrange(
        0,
        c2.live_piece_count as int,
    ));
    assert(c1.melds@.subrange(0, c1.meld_count as int) =~= c2.melds@.subrange(
        0,
        c2.meld_count as int,
    ));
    assert(c1.discards@.subrange(0, c1.discard_count as int) =~= c2.discards@.subrange(
        0,
        c2.discard_count as int,
    ));
}

#[derive(Debug, Clone, PartialEq, Eq)]
pub struct ObservedGameState {
    pub current_player: i32,
    pub turn_num: i32,
    pub round_num: i32,
    pub riichi_sticks: i32,
    pub counters: i32,
    pub last_call: i32,
    pub last_caller: i32,
    pub concealed_kan: bool,
    pub seed: u64,
    pub pending_piece: i32,
    pub scores: [i32; 4],
    pub points: [i32; 4],
    pub has_ronned: [bool; 4],
    pub hands: [Hand; 4],
    pub prev_state: StateFunctionType,
    pub curr_state: StateFunctionType,
    pub next_state: StateFunctionType,
}

/// Every count of every hand of a wire snapshot fits its array.
pub open spec fn snapshot_counts_fit(c: CObservedGameState) -> bool {
    forall|i: int| 0 <= i < 4 ==> hand_counts_fit(#[trigger] c.hands@[i])
}

/// `s` is the wire snapshot `c` with every hand decoded and every label mapped.
pub open spec fn decodes_snapshot(c: CObservedGameState, s: ObservedGameState) -> bool {
    &&& s.current_player == c.current_player
    &&& s.turn_num == c.turn_num
    &&& s.round_num == c.round_num
    &&& s.riichi_sticks == c.riichi_sticks
    &&& s.counters == c.counters
    &&& s.last_call == c.last_call
    &&& s.last_caller == c.last_caller
    &&& s.concealed_kan == c.concealed_kan
    &&& s.seed == c.seed
    &&& s.pending_piece == c.pending_piece
    &&& s.scores == c.scores
    &&& s.points == c.points
    &&& s.has_ronned == c.has_ronned
    &&& forall|i: int| 0 <= i < 4 ==> decodes_hand(c.hands@[i], #[trigger] s.hands@[i])
    &&& s.prev_state == state_of(c.prev_state)
    &&& s.curr_state == state_of(c.curr_state)
    &&& s.next_state == state_of(c.next_state)
}

impl ObservedGameState {
    /// Decodes a wire snapshot into owned values. A count outside its
    /// array's capacity in any hand is a broken snapshot, and nothing of it
    /// is decoded.
    pub fn from_wire(c_state: &CObservedGameState) -> (r: Result<ObservedGameState, MahjongFFIError>)
        ensures
            match r {
                Ok(s) => snapshot_counts_fit(*c_state) && decodes_snapshot(*c_state, s),
                Err(e) => !snapshot_counts_fit(*c_state) && e
                    == MahjongFFIError::SnapshotCountOutOfRange,
            },
    {
        let h0 = match Hand::from_wire(&c_state.hands[0]) {
            Ok(h) => h,
            Err(e) => return Err(e),
        };
        let h1 = match Hand::from_wire(&c_state.hands[1]) {
            Ok(h) => h,
            Err(e) => return Err(e),
        };
        let h2 = match Hand::from_wire(&c_state.hands[2]) {
            Ok(h) => h,
            Err(e) => return Err(e),
        };
        let h3 = match Hand::from_wire(&c_state.hands[3]) {
            Ok(h) => h,
            Err(e) => return Err(e),
        };
        let hands = [h0, h1, h2, h3];
        let s = Self {
            current_player: c_state.current_player,
            turn_num: c_state.turn_num,
            round_num: c_state.round_num,
            riichi_sticks: c_state.riichi_sticks,
            counters: c_state.counters,
            last_call: c_state.last_call,
            last_caller: c_state.last_caller,
            concealed_kan: c_state.concealed_kan,
            seed: c_state.seed,
            pending_piece: c_state.pending_piece,
            scores: c_state.scores,
            points: c_state.points,
            has_ronned: c_state.has_ronned,
            hands,
            prev_state: StateFunctionType::from(c_state.prev_state),
            curr_state: StateFunctionType::from(c_state.curr_state),
            next_state: StateFunctionType::from(c_state.next_state),
        };
        assert(forall|i: int| 0 <= i < 4 ==> decodes_hand(c_state.hands@[i], #[trigger] s.hands@[i])) by {
            assert(s.hands@[0] == h0 && s.hands@[1] == h1 && s.hands@[2] == h2 && s.hands@[3] == h3);
        }
        Ok(s)
    }

    /// Get the current player index
    pub fn current_player(&self) -> (r: i32)
        ensures
            r == self.current_player,
    {
        self.current_player
    }

    /// Get the current turn number
    pub fn turn_num(&self) -> (r: i32)
        ensures
            r == self.turn_num,
    {
        self.turn_num
    }

    /// Get the current round number
    pub fn round_num(&self) -> (r: i32)
        ensures
            r == self.round_num,
    {
        self.round_num
    }

    /// Get the number of riichi sticks on the table
    pub fn riichi_sticks(&self) -> (r: i32)
        ensures
            r == self.riichi_sticks,
    {
        self.riichi_sticks
    }

    /// Get the honba counters
    pub fn counters(&self) -> (r: i32)
        ensures
            r == self.counters,
    {
        self.counters
    }

    /// Get the seed used for the game
    pub fn seed(&self) -> (r: u64)
        ensures
            r == self.seed,
    {
        self.seed
    }

    /// Get the current pending piece
    pub fn pending_piece(&self) -> (r: i32)
        ensures
            r == self.pending_piece,
    {
        self.pending_piece
    }

    /// Get the scores for all players
    pub fn scores(&self) -> (r: &[i32; 4])
        ensures
            *r == self.scores,
    {
        &self.scores
    }

    /// Get the points for all players
    pub fn points(&self) -> (r: &[i32; 4])
        ensures
            *r == self.points,
    {
        &self.points
    }

    /// Get the hands for all players
    pub fn hands(&self) -> (r: &[Hand; 4])
        ensures
            *r == self.hands,
    {
        &self.hands
    }

    /// Get the current state function type
    pub fn current_state(&self) -> (r: StateFunctionType)
        ensures
            r == self.curr_state,
    {
        self.curr_state
    }

    /// Get the previous state function type
    pub fn previous_state(&self) -> (r: StateFunctionType)
        ensures
            r == self.prev_state,
    {
        self.prev_state
    }

    /// Get the next state function type
    pub fn next_state(&self) -> (r: StateFunctionType)
        ensures
            r == self.next_state,
    {
        self.next_state
    }

    /// Check if concealed kan was just performed
    pub fn concealed_kan(&self) -> (r: bool)
        ensures
            r == self.concealed_kan,
    {
        self.concealed_kan
    }

    /// Get which players have declared ron this turn
    pub fn has_ronned(&self) -> (r: &[bool; 4])
        ensures
            *r == self.has_ronned,
    {
        &self.has_ronned
    }
}

} // verus!

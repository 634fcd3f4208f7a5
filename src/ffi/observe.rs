//! The engine's fixed-capacity snapshot records, as plain values: each
//! array carries an explicit count of the entries that hold data.

use vstd::prelude::*;

verus! {

broadcast use vstd::array::group_array_axioms;

pub const MAX_LIVE_HAND_SIZE: usize = 14;
pub const MAX_MELDS_PER_HAND: usize = 4;
pub const MAX_DISCARDS_PER_PLAYER: usize = 21;

/// A piece as the snapshot carries it.
pub type CPiece = i32;

#[derive(Debug, Clone, Copy, PartialEq, Eq, Structural)]
pub enum CMeldType {
    Chi,
    Pon,
    Kan,
    ConcealedKan,
}

#[derive(Debug, Clone, Copy, PartialEq, Eq, Structural)]
pub enum CStateFunctionType {
    Error,
    GameStart,
    RoundStart,
    Draw,
    PlayerHand,
    Pon,
    Chi,
    Kan,
    ConcealedKan,
    ConvertedKan,
    KanDiscard,
    Replacement,
    Riichi,
    Discard,
    Exhaust,
    Ron,
    Tsumo,
    RoundEnd,
    GameEnd,
}

#[derive(Debug, Clone, Copy)]
pub struct CMeld {
    pub meld_type: CMeldType,
    pub start: CPiece,
}

#[derive(Debug, Clone, Copy)]
pub struct CHand {
    pub live_pieces: [CPiece; MAX_LIVE_HAND_SIZE],
    pub live_piece_count: i32,
    pub melds: [CMeld; MAX_MELDS_PER_HAND],
    pub meld_count: i32,
    pub discards: [CPiece; MAX_DISCARDS_PER_PLAYER],
    pub discard_count: i32,
    pub open: bool,
    pub riichi: bool,
    pub riichi_piece_discard: i32,
    pub riichi_round: i32,
}

#[derive(Debug, Clone, Copy)]
pub struct CObservedGameState {
    pub current_player: i32,
    pub turn_num: i32,
    pub round_num: i32,
    pub riichi_sticks: i32,
    pub counters: i32,
    pub last_call: i32,
    pub last_caller: i32,
    pub concealed_kan: bool,
    pub seed: u64,
    pub pending_piece: CPiece,
    pub scores: [i32; 4],
    pub points: [i32; 4],
    pub has_ronned: [bool; 4],
    pub hands: [CHand; 4],
    pub prev_state: CStateFunctionType,
    pub curr_state: CStateFunctionType,
    pub next_state: CStateFunctionType,
}

/// A hand with no entries and every flag and counter cleared.
pub open spec fn is_empty_hand(h: CHand) -> bool {
    &&& h.live_pieces@ == Seq::new(MAX_LIVE_HAND_SIZE as nat, |i: int| 0i32)
    &&& h.live_piece_count == 0
    &&& h.meld_count == 0
    &&& h.discards@ == Seq::new(MAX_DISCARDS_PER_PLAYER as nat, |i: int| 0i32)
    &&& h.discard_count == 0
    &&& !h.open
    &&& !h.riichi
    &&& h.riichi_piece_discard == 0
    &&& h.riichi_round == 0
}

impl Default for CMeld {
    fn default() -> (r: Self)
        ensures
            r.meld_type == CMeldType::Chi,
            r.start == 0,
    {
        Self { meld_type: CMeldType::Chi, start: 0 }
    }
}

impl Default for CHand {
    fn default() -> (r: Self)
        ensures
            is_empty_hand(r),
    {
        let live_pieces: [CPiece; MAX_LIVE_HAND_SIZE] = [0; MAX_LIVE_HAND_SIZE];
        let discards: [CPiece; MAX_DISCARDS_PER_PLAYER] = [0; MAX_DISCARDS_PER_PLAYER];
        assert(live_pieces@ =~= Seq::new(MAX_LIVE_HAND_SIZE as nat, |i: int| 0i32));
        assert(discards@ =~= Seq::new(MAX_DISCARDS_PER_PLAYER as nat, |i: int| 0i32));
        Self {
            live_pieces,
            live_piece_count: 0,
            melds: [CMeld { meld_type: CMeldType::Chi, start: 0 }; MAX_MELDS_PER_HAND],
            meld_count: 0,
            discards,
            discard_count: 0,
            open: false,
            riichi: false,
            riichi_piece_discard: 0,
            riichi_round: 0,
        }
    }
}

impl Default for CObservedGameState {
    fn default() -> (r: Self)
        ensures
            r.current_player == 0,
            r.turn_num == 0,
            r.round_num == 0,
            r.riichi_sticks == 0,
            r.counters == 0,
            r.last_call == 0,
            r.last_caller == 0,
            !r.concealed_kan,
            r.seed == 0,
            r.pending_piece == 0,
            r.scores@ == seq![0i32, 0, 0, 0],
            r.points@ == seq![0i32, 0, 0, 0],
            r.has_ronned@ == seq![false, false, false, false],
            forall|i: int| 0 <= i < 4 ==> is_empty_hand(#[trigger] r.hands@[i]),
            r.prev_state == CStateFunctionType::Error,
            r.curr_state == CStateFunctionType::Error,
            r.next_state == CStateFunctionType::Error,
    {
        let h = CHand::default();
        let scores: [i32; 4] = [0; 4];
        let points: [i32; 4] = [0; 4];
        let has_ronned: [bool; 4] = [false; 4];
        let hands: [CHand; 4] = [h; 4];
        assert(scores@ =~= seq![0i32, 0, 0, 0]);
        assert(points@ =~= seq![0i32, 0, 0, 0]);
        assert(has_ronned@ =~= seq![false, false, false, false]);
        Self {
            current_player: 0,
            turn_num: 0,
            round_num: 0,
            riichi_sticks: 0,
            counters: 0,
            last_call: 0,
            last_caller: 0,
            concealed_kan: false,
            seed: 0,
            pending_piece: 0,
            scores,
            points,
            has_ronned,
            hands,
            prev_state: CStateFunctionType::Error,
            curr_state: CStateFunctionType::Error,
            next_state: CStateFunctionType::Error,
        }
    }
}

} // verus!

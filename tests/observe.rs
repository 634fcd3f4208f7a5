use mahjong_ffi::ffi::error::MahjongFFIError;
use mahjong_ffi::ffi::observe::{CHand, CMeld, CMeldType, CObservedGameState, CStateFunctionType};
use mahjong_ffi::observe::{Hand, Meld, MeldType, ObservedGameState, StateFunctionType};

fn wire_hand(live: i32, melds: i32, discards: i32, fill: i32) -> CHand {
    let mut h = CHand::default();
    h.live_pieces = [fill; 14];
    h.discards = [fill; 21];
    h.melds = [CMeld { meld_type: CMeldType::Kan, start: fill }; 4];
    for i in 0..live.clamp(0, 14) as usize {
        h.live_pieces[i] = 0x21 + i as i32;
    }
    for i in 0..melds.clamp(0, 4) as usize {
        h.melds[i] = CMeld { meld_type: CMeldType::Pon, start: 0x41 + i as i32 };
    }
    for i in 0..discards.clamp(0, 21) as usize {
        h.discards[i] = 0x61 + i as i32;
    }
    h.live_piece_count = live;
    h.meld_count = melds;
    h.discard_count = discards;
    h
}

#[test]
fn decoding_keeps_only_counted_entries() {
    let a = Hand::from_wire(&wire_hand(3, 1, 5, 0x7F)).unwrap();
    let b = Hand::from_wire(&wire_hand(3, 1, 5, -9)).unwrap();
    assert_eq!(a.live_piece_count(), 3);
    assert_eq!(a.meld_count(), 1);
    assert_eq!(a.discard_count(), 5);
    assert_eq!(a.live_pieces, vec![0x21, 0x22, 0x23]);
    assert_eq!(a.melds, vec![Meld { meld_type: MeldType::Pon, start: 0x41 }]);
    assert_eq!(a.discards, vec![0x61, 0x62, 0x63, 0x64, 0x65]);
    assert_eq!(a, b);
}

#[test]
fn decoding_full_and_empty_hands() {
    let full = Hand::from_wire(&wire_hand(14, 4, 21, 0)).unwrap();
    assert_eq!(full.live_piece_count(), 14);
    assert_eq!(full.meld_count(), 4);
    assert_eq!(full.discard_count(), 21);
    let empty = Hand::from_wire(&CHand::default()).unwrap();
    assert!(empty.live_pieces.is_empty() && empty.melds.is_empty() && empty.discards.is_empty());
    assert!(!empty.open && !empty.riichi);
}

#[test]
fn counts_beyond_capacity_are_rejected() {
    for (l, m, d) in [(15, 0, 0), (0, 5, 0), (0, 0, 22), (-1, 0, 0), (0, -1, 0), (0, 0, -3)] {
        assert_eq!(
            Hand::from_wire(&wire_hand(l, m, d, 0)),
            Err(MahjongFFIError::SnapshotCountOutOfRange)
        );
    }
}

#[test]
fn hand_flags_are_copied() {
    let mut c = wire_hand(2, 0, 1, 0);
    c.open = true;
    c.riichi = true;
    c.riichi_piece_discard = 4;
    c.riichi_round = 2;
    let h = Hand::from_wire(&c).unwrap();
    assert!(h.open && h.riichi);
    assert_eq!(h.riichi_piece_discard, 4);
    assert_eq!(h.riichi_round, 2);
}

#[test]
fn hand_grows_by_one_entry() {
    let mut h = Hand::from_wire(&wire_hand(1, 0, 0, 0)).unwrap();
    h.add_live_piece(0x30);
    h.add_meld(Meld { meld_type: MeldType::Chi, start: 0x22 });
    h.add_discard(0x07);
    assert_eq!(h.live_pieces, vec![0x21, 0x30]);
    assert_eq!(h.meld_count(), 1);
    assert_eq!(h.discards, vec![0x07]);
}

#[test]
fn wire_labels_map_one_to_one() {
    assert_eq!(MeldType::from(CMeldType::Chi), MeldType::Chi);
    assert_eq!(MeldType::from(CMeldType::ConcealedKan), MeldType::ConcealedKan);
    assert_eq!(StateFunctionType::from(CStateFunctionType::Error), StateFunctionType::Error);
    assert_eq!(StateFunctionType::from(CStateFunctionType::KanDiscard), StateFunctionType::KanDiscard);
    assert_eq!(StateFunctionType::from(CStateFunctionType::GameEnd), StateFunctionType::GameEnd);
    let m = Meld::from(CMeld { meld_type: CMeldType::Kan, start: 0x29 });
    assert_eq!(m, Meld { meld_type: MeldType::Kan, start: 0x29 });
}

#[test]
fn snapshot_decodes_every_field() {
    let mut c = CObservedGameState::default();
    c.current_player = 2;
    c.turn_num = 17;
    c.round_num = 3;
    c.riichi_sticks = 1;
    c.counters = 2;
    c.concealed_kan = true;
    c.seed = 99;
    c.pending_piece = 0x25;
    c.scores = [25000, 24000, 26000, 25000];
    c.points = [1, -2, 3, -4];
    c.has_ronned = [false, true, false, false];
    c.hands[1] = wire_hand(3, 1, 5, 0x11);
    c.prev_state = CStateFunctionType::Draw;
    c.curr_state = CStateFunctionType::PlayerHand;
    c.next_state = CStateFunctionType::Discard;
    let s = ObservedGameState::from_wire(&c).unwrap();
    assert_eq!(s.current_player(), 2);
    assert_eq!(s.turn_num(), 17);
    assert_eq!(s.round_num(), 3);
    assert_eq!(s.riichi_sticks(), 1);
    assert_eq!(s.counters(), 2);
    assert!(s.concealed_kan());
    assert_eq!(s.seed(), 99);
    assert_eq!(s.pending_piece(), 0x25);
    assert_eq!(s.scores(), &[25000, 24000, 26000, 25000]);
    assert_eq!(s.points(), &[1, -2, 3, -4]);
    assert_eq!(s.has_ronned(), &[false, true, false, false]);
    assert_eq!(s.hands()[1].live_piece_count(), 3);
    assert_eq!(s.hands()[1].discard_count(), 5);
    assert_eq!(s.hands()[0].live_piece_count(), 0);
    assert_eq!(s.previous_state(), StateFunctionType::Draw);
    assert_eq!(s.current_state(), StateFunctionType::PlayerHand);
    assert_eq!(s.next_state(), StateFunctionType::Discard);
}

#[test]
fn snapshot_with_a_broken_hand_is_rejected() {
    let mut c = CObservedGameState::default();
    c.hands[3].meld_count = 9;
    assert_eq!(
        ObservedGameState::from_wire(&c),
        Err(MahjongFFIError::SnapshotCountOutOfRange)
    );
}

#[test]
fn default_snapshot_is_empty() {
    let c = CObservedGameState::default();
    assert_eq!(c.current_player, 0);
    assert_eq!(c.curr_state, CStateFunctionType::Error);
    assert_eq!(c.hands[2].live_piece_count, 0);
    let m = CMeld::default();
    assert_eq!(m.meld_type, CMeldType::Chi);
}

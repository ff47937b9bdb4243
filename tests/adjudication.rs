use land_battle_chess::game_logic::{compare_piece, AttackResult, MovePos, Piece, PieceInfo, PieceMove};

fn all_pieces() -> [Piece; 15] {
    [
    Piece::Empty,
    Piece::Flag,
    Piece::Bomb,
    Piece::Landmine,
    Piece::Engineer,
    Piece::Lieutenant,
    Piece::Captain,
    Piece::Major,
    Piece::Colonel,
    Piece::Brigadier,
    Piece::MajorGeneral,
    Piece::General,
    Piece::FieldMarshal,
    Piece::Unchanged,
    Piece::Opponent,
    ]
}

fn info(piece: Piece) -> PieceInfo {
    PieceInfo { piece, flag_x: None, flag_y: None }
}

fn info_with_flag(piece: Piece, x: u32, y: u32) -> PieceInfo {
    PieceInfo { piece, flag_x: Some(x), flag_y: Some(y) }
}

fn pos() -> MovePos {
    MovePos { x: 1, y: 3, target_x: 1, target_y: 4 }
}

#[test]
fn simple_move_onto_empty() {
    let r = compare_piece(info(Piece::Lieutenant), info(Piece::Empty), pos());
    assert_eq!(
        r,
        PieceMove {
            x: 1,
            y: 3,
            target_x: 1,
            target_y: 4,
            attack_result: AttackResult::SimpleMove,
            flag_x: None,
            flag_y: None,
            opp_flag_x: None,
            opp_flag_y: None,
            game_winner: 0,
        }
    );
}

#[test]
fn higher_rank_wins() {
    let r = compare_piece(info(Piece::General), info(Piece::Captain), pos());
    assert_eq!(r.attack_result, AttackResult::Win);
    assert_eq!(r.opp_flag_x, None);
    assert_eq!(r.opp_flag_y, None);
    assert_eq!(r.game_winner, 0);
}

#[test]
fn lower_rank_loses() {
    let r = compare_piece(info(Piece::Captain), info(Piece::General), pos());
    assert_eq!(r.attack_result, AttackResult::Lose);
    assert_eq!(r.game_winner, 0);
}

#[test]
fn equal_ranks_draw() {
    let r = compare_piece(info(Piece::Major), info(Piece::Major), pos());
    assert_eq!(r.attack_result, AttackResult::Draw);
}

#[test]
fn engineer_defuses_landmine() {
    let r = compare_piece(info(Piece::Engineer), info(Piece::Landmine), pos());
    assert_eq!(r.attack_result, AttackResult::Win);
    for p in [Piece::Lieutenant, Piece::Captain, Piece::General, Piece::FieldMarshal] {
        let r = compare_piece(info(p), info(Piece::Landmine), pos());
        assert_eq!(r.attack_result, AttackResult::Lose);
    }
}

#[test]
fn bomb_trades_with_field_marshal() {
    let r = compare_piece(info(Piece::Bomb), info_with_flag(Piece::FieldMarshal, 0, 0), pos());
    assert_eq!(r.attack_result, AttackResult::Draw);
    assert_eq!(r.opp_flag_x, Some(0));
    assert_eq!(r.opp_flag_y, Some(0));
    assert_eq!(r.flag_x, None);
    assert_eq!(r.flag_y, None);
    assert_eq!(r.game_winner, 0);
}

#[test]
fn flag_capture_ends_game() {
    let r = compare_piece(info(Piece::Lieutenant), info(Piece::Flag), pos());
    assert_eq!(r.attack_result, AttackResult::Win);
    assert_eq!(r.game_winner, 1);
}

#[test]
fn bombing_own_flag_ends_game_for_mover() {
    // a bomb on the defender's flag takes it: both leave, the defender's flag among them
    let r = compare_piece(info(Piece::Bomb), info(Piece::Flag), pos());
    assert_eq!(r.attack_result, AttackResult::Draw);
    assert_eq!(r.game_winner, 1);
    // a moving flag that loses is the mover's flag
    let r = compare_piece(info(Piece::Flag), info(Piece::Engineer), pos());
    assert_eq!(r.attack_result, AttackResult::Lose);
    assert_eq!(r.game_winner, 2);
    // flag onto flag: the mover's loss is checked first
    let r = compare_piece(info(Piece::Flag), info(Piece::Flag), pos());
    assert_eq!(r.attack_result, AttackResult::Draw);
    assert_eq!(r.game_winner, 2);
}

#[test]
fn losing_field_marshal_reveals_own_flag() {
    let r = compare_piece(info_with_flag(Piece::FieldMarshal, 2, 0), info(Piece::Landmine), pos());
    assert_eq!(r.attack_result, AttackResult::Lose);
    assert_eq!((r.flag_x, r.flag_y), (Some(2), Some(0)));
    assert_eq!((r.opp_flag_x, r.opp_flag_y), (None, None));
}

#[test]
fn winning_field_marshal_keeps_flag_hidden() {
    let r = compare_piece(info_with_flag(Piece::FieldMarshal, 2, 0), info(Piece::General), pos());
    assert_eq!(r.attack_result, AttackResult::Win);
    assert_eq!((r.flag_x, r.flag_y), (None, None));
}

#[test]
fn field_marshals_trade_and_reveal_both_flags() {
    let r = compare_piece(
        info_with_flag(Piece::FieldMarshal, 1, 0),
        info_with_flag(Piece::FieldMarshal, 3, 11),
        pos(),
    );
    assert_eq!(r.attack_result, AttackResult::Draw);
    assert_eq!((r.flag_x, r.flag_y), (Some(1), Some(0)));
    assert_eq!((r.opp_flag_x, r.opp_flag_y), (Some(3), Some(11)));
}

#[test]
fn adjudication_is_deterministic() {
    for a in all_pieces() {
        for d in all_pieces() {
            let r1 = compare_piece(info_with_flag(a, 1, 2), info_with_flag(d, 3, 4), pos());
            let r2 = compare_piece(info_with_flag(a, 1, 2), info_with_flag(d, 3, 4), pos());
            assert_eq!(r1, r2);
        }
    }
}

#[test]
fn simple_move_exactly_on_empty_target() {
    for a in all_pieces() {
        for d in all_pieces() {
            let r = compare_piece(info(a), info(d), pos());
            assert_eq!(r.attack_result == AttackResult::SimpleMove, d == Piece::Empty);
        }
    }
}

#[test]
fn flags_revealed_by_result() {
    for a in all_pieces() {
        for d in all_pieces() {
            let r = compare_piece(info_with_flag(a, 0, 1), info_with_flag(d, 4, 10), pos());
            let mover_flag = if a == Piece::FieldMarshal { Some(0) } else { None };
            let defender_flag = if d == Piece::FieldMarshal { Some(4) } else { None };
            match r.attack_result {
                AttackResult::Win => {
                    assert_eq!(r.flag_x, None);
                    assert_eq!(r.opp_flag_x, defender_flag);
                }
                AttackResult::Draw => {
                    assert_eq!(r.flag_x, mover_flag);
                    assert_eq!(r.opp_flag_x, defender_flag);
                }
                AttackResult::Lose => {
                    assert_eq!(r.flag_x, mover_flag);
                    assert_eq!(r.opp_flag_x, None);
                }
                AttackResult::SimpleMove => {
                    assert_eq!(r.flag_x, None);
                    assert_eq!(r.opp_flag_x, None);
                }
            }
        }
    }
}

#[test]
fn winner_only_when_a_flag_falls() {
    for a in all_pieces() {
        for d in all_pieces() {
            let r = compare_piece(info(a), info(d), pos());
            match r.game_winner {
                0 => {}
                1 => {
                    assert_eq!(d, Piece::Flag);
                    assert!(matches!(r.attack_result, AttackResult::Win | AttackResult::Draw));
                }
                2 => {
                    assert_eq!(a, Piece::Flag);
                    assert!(matches!(r.attack_result, AttackResult::Draw | AttackResult::Lose));
                }
                w => panic!("unexpected winner {}", w),
            }
        }
    }
}

#[test]
fn piece_codes_follow_the_wire_encoding() {
    let codes: Vec<u64> = all_pieces().iter().map(|p| p.code()).collect();
    assert_eq!(codes, vec![0, 1, 2, 3, 4, 5, 6, 7, 8, 9, 10, 11, 12, 15, 16]);
    for p in all_pieces() {
        assert_eq!(Piece::from_repr(p.code()), Some(p));
    }
    assert_eq!(Piece::from_repr(13), None);
    assert_eq!(Piece::from_repr(14), None);
    assert_eq!(Piece::from_repr(17), None);
}

#[test]
fn attack_result_codes() {
    assert_eq!(AttackResult::SimpleMove.code(), 0);
    assert_eq!(AttackResult::Win.code(), 1);
    assert_eq!(AttackResult::Draw.code(), 2);
    assert_eq!(AttackResult::Lose.code(), 3);
    assert_eq!(AttackResult::from_repr(2), Some(AttackResult::Draw));
    assert_eq!(AttackResult::from_repr(4), None);
}

use chess::cozy_helper::{
    cozy_move_of_uci_move, cozy_square_of_uci_square, uci_square_of_cozy_square,
};
use chess::moves::{Mv, PieceKind, Sq};
use chess::uci::{
    decode_command, encode_best_move, parse_mode, uci_move_of_cozy_move, Command, Mode,
    ProtocolDecodeError, UnknownModeError, WireMove,
};

#[test]
fn decode_handshake() {
    assert_eq!(decode_command("uci"), Ok(Command::Handshake));
}

#[test]
fn decode_new_game() {
    assert_eq!(decode_command("ucinewgame"), Ok(Command::NewGame));
}

#[test]
fn decode_ready_check() {
    assert_eq!(decode_command("isready"), Ok(Command::ReadyCheck));
}

#[test]
fn decode_go() {
    assert_eq!(decode_command("go infinite"), Ok(Command::Go));
}

#[test]
fn decode_quit() {
    assert_eq!(decode_command("quit"), Ok(Command::Quit));
}

#[test]
fn decode_unknown_line_is_other() {
    assert_eq!(decode_command("definitely not a uci line"), Ok(Command::Other));
}

#[test]
fn decode_unhandled_message_is_other() {
    assert_eq!(decode_command("stop"), Ok(Command::Other));
}

#[test]
fn decode_position_with_moves() {
    let c = decode_command("position startpos moves e2e4").unwrap();
    match c {
        Command::PositionUpdate { startpos, moves } => {
            assert!(startpos);
            assert_eq!(
                moves,
                vec![Mv {
                    from: Sq { file: 4, rank: 1 },
                    to: Sq { file: 4, rank: 3 },
                    promotion: None,
                }]
            );
        }
        other => panic!("unexpected command {:?}", other),
    }
}

#[test]
fn decode_position_keeps_move_order() {
    let c = decode_command("position startpos moves e2e4 e7e5").unwrap();
    match c {
        Command::PositionUpdate { moves, .. } => {
            assert_eq!(moves.len(), 2);
            assert_eq!(moves[1].from, Sq { file: 4, rank: 6 });
            assert_eq!(moves[1].to, Sq { file: 4, rank: 4 });
        }
        other => panic!("unexpected command {:?}", other),
    }
}

#[test]
fn decode_rejects_oversized_depth() {
    assert_eq!(
        decode_command("go depth 300"),
        Err(ProtocolDecodeError::NumberTooLarge)
    );
}

#[test]
fn decode_rejects_oversized_movestogo() {
    assert_eq!(
        decode_command("go wtime 300000 btime 300000 movestogo 300"),
        Err(ProtocolDecodeError::NumberTooLarge)
    );
}

#[test]
fn decode_rejects_oversized_info_depth() {
    assert_eq!(
        decode_command("info depth 999 nodes 1000"),
        Err(ProtocolDecodeError::NumberTooLarge)
    );
}

#[test]
fn decode_accepts_small_numeric_fields() {
    assert_eq!(decode_command("go depth 10"), Ok(Command::Go));
    assert_eq!(decode_command("GO DEPTH 255"), Ok(Command::Go));
    assert_eq!(
        decode_command("go wtime 300000 btime 300000 winc 0 binc 0 movestogo 40"),
        Ok(Command::Go)
    );
}

#[test]
fn decode_position_keeps_promotion_choice() {
    let c = decode_command("position startpos moves e7e8q").unwrap();
    match c {
        Command::PositionUpdate { moves, .. } => {
            assert_eq!(
                moves,
                vec![Mv {
                    from: Sq { file: 4, rank: 6 },
                    to: Sq { file: 4, rank: 7 },
                    promotion: Some(PieceKind::Queen),
                }]
            );
        }
        other => panic!("unexpected command {:?}", other),
    }
}

#[test]
fn decode_position_underpromotion() {
    let c = decode_command("position startpos moves a2a1n").unwrap();
    match c {
        Command::PositionUpdate { moves, .. } => {
            assert_eq!(moves[0].promotion, Some(PieceKind::Knight));
        }
        other => panic!("unexpected command {:?}", other),
    }
}

#[test]
fn wire_move_with_bad_file_is_rejected() {
    let w = WireMove { from_file: 'x', from_rank: 2, to_file: 'e', to_rank: 4, promotion: None };
    assert_eq!(cozy_move_of_uci_move(&w), Err(ProtocolDecodeError::InvalidFile('x')));
}

#[test]
fn wire_move_with_bad_rank_is_rejected() {
    let w = WireMove { from_file: 'e', from_rank: 0, to_file: 'e', to_rank: 4, promotion: None };
    assert_eq!(cozy_move_of_uci_move(&w), Err(ProtocolDecodeError::InvalidRank(0)));
}

#[test]
fn square_conversion_round_trip() {
    let sq = cozy_square_of_uci_square('c', 6).unwrap();
    assert_eq!(sq, Sq { file: 2, rank: 5 });
    assert_eq!(uci_square_of_cozy_square(sq), ('c', 6));
}

#[test]
fn square_conversion_rejects_bad_file() {
    assert_eq!(
        cozy_square_of_uci_square('j', 3),
        Err(ProtocolDecodeError::InvalidFile('j'))
    );
}

#[test]
fn square_conversion_rejects_bad_rank() {
    assert_eq!(
        cozy_square_of_uci_square('a', 9),
        Err(ProtocolDecodeError::InvalidRank(9))
    );
}

#[test]
fn wire_form_of_a_move() {
    let m = Mv {
        from: Sq { file: 6, rank: 0 },
        to: Sq { file: 5, rank: 2 },
        promotion: None,
    };
    let (w, promo) = uci_move_of_cozy_move(&m, false);
    assert_eq!(
        w,
        WireMove { from_file: 'g', from_rank: 1, to_file: 'f', to_rank: 3, promotion: None }
    );
    assert!(!promo);
}

#[test]
fn encode_plain_move() {
    let m = Mv {
        from: Sq { file: 4, rank: 1 },
        to: Sq { file: 4, rank: 3 },
        promotion: None,
    };
    assert_eq!(encode_best_move(&m), "bestmove e2e4");
}

#[test]
fn encode_promotion_always_reports_queen() {
    let m = Mv {
        from: Sq { file: 0, rank: 6 },
        to: Sq { file: 0, rank: 7 },
        promotion: Some(PieceKind::Knight),
    };
    assert_eq!(encode_best_move(&m), "bestmove a7a8q");
}

#[test]
fn parse_mode_values() {
    assert_eq!(parse_mode("monteattack"), Ok(Mode::MonteCarloAggressive));
    assert_eq!(parse_mode("random"), Ok(Mode::Random));
    assert_eq!(parse_mode("alphazero"), Err(UnknownModeError));
    assert_eq!(parse_mode(""), Err(UnknownModeError));
}

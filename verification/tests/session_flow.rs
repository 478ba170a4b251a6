use chess::monte_carlo_aggressive_engine::{
    MonteCarloAggressiveEngine, SearchConfig, SearchShape,
};
use chess::random_engine::RandomEngine;
use chess::score::ScoreConfig;
use chess::session::{Session, SessionNote, SessionState};
use chess::uci::{decode_command, Command};
use cozy_chess::Board;

const STALEMATE_FEN: &str = "7k/5Q2/6K1/8/8/8/8/8 b - - 0 1";

fn ready_session() -> Session<RandomEngine> {
    let mut s = Session::new(RandomEngine);
    s.step(Command::Handshake);
    s
}

#[test]
fn greeting_line() {
    assert_eq!(Session::<RandomEngine>::greeting(), "uci");
}

#[test]
fn new_session_holds_start_position() {
    let s = Session::new(RandomEngine);
    assert_eq!(s.state, SessionState::AwaitingHandshake);
    assert_eq!(s.board, Board::default());
}

#[test]
fn handshake_emits_identity_and_ok() {
    let mut s = Session::new(RandomEngine);
    let (out, note) = s.step(Command::Handshake);
    assert_eq!(out, vec!["id name Coolbot".to_string(), "uciok".to_string()]);
    assert_eq!(note, None);
    assert_eq!(s.state, SessionState::Ready);
}

#[test]
fn ready_check_is_acknowledged() {
    let mut s = ready_session();
    assert_eq!(s.step(Command::ReadyCheck).0, vec!["readyok".to_string()]);
    assert_eq!(s.state, SessionState::Ready);
}

#[test]
fn new_game_resets_board_after_any_game_length() {
    let mut s = ready_session();
    s.step(decode_command("position startpos moves e2e4").unwrap());
    s.step(decode_command("position startpos moves e2e4 e7e5").unwrap());
    s.step(Command::Go);
    assert_ne!(s.board, Board::default());
    let out = s.step(Command::NewGame);
    assert!(out.0.is_empty());
    assert_eq!(s.board, Board::default());
}

#[test]
fn go_from_start_emits_one_legal_move() {
    let mut s = ready_session();
    s.step(Command::NewGame);
    let (out, note) = s.step(Command::Go);
    assert_eq!(note, None);
    assert_eq!(out.len(), 1);
    assert!(out[0].starts_with("bestmove "));
    let mv: cozy_chess::Move = out[0]["bestmove ".len()..].parse().unwrap();
    let start = Board::default();
    let mut found = false;
    start.generate_moves(|ms| {
        for m in ms {
            if m == mv {
                found = true;
            }
        }
        false
    });
    assert!(found, "emitted move {} is not legal in the start position", mv);
}

fn small_search_engine() -> MonteCarloAggressiveEngine {
    let config = SearchConfig {
        depth: 3,
        shape: SearchShape::ShrinkingBreadth { breadth: 8, decay: 4 },
        scores: ScoreConfig::aggressive(),
    };
    MonteCarloAggressiveEngine::with_config(config).unwrap()
}

#[test]
fn search_mode_go_emits_one_move() {
    let mut s = Session::new(small_search_engine());
    s.step(Command::Handshake);
    let out = s.step(Command::Go).0;
    assert_eq!(out.len(), 1);
    assert!(out[0].starts_with("bestmove "));
}

#[test]
fn incremental_apply_matches_rules_engine() {
    let mut s = ready_session();
    s.step(decode_command("position startpos moves e2e4").unwrap());
    let mut expected = Board::default();
    expected.play("e2e4".parse().unwrap());
    assert_eq!(s.board, expected);
}

#[test]
fn go_searches_the_updated_position() {
    let mut s = ready_session();
    s.step(decode_command("position startpos moves e2e4").unwrap());
    let mut before = s.board.clone();
    let out = s.step(Command::Go).0;
    assert_eq!(out.len(), 1);
    let mv: cozy_chess::Move = out[0]["bestmove ".len()..].parse().unwrap();
    assert!(before.is_legal(mv), "the reply must be legal after e2e4");
    before.play(mv);
    assert_eq!(s.board, before);
}

#[test]
fn illegal_reported_move_is_skipped() {
    let mut s = ready_session();
    let before = s.board.clone();
    let (out, note) = s.step(decode_command("position startpos moves e2e5").unwrap());
    assert!(out.is_empty());
    assert_eq!(note, Some(SessionNote::IllegalReportedMove));
    assert_eq!(s.board, before);
    assert_eq!(s.state, SessionState::InGame);
}

#[test]
fn go_without_legal_moves_emits_nothing() {
    let mut s = Session::new(MonteCarloAggressiveEngine::new());
    s.step(Command::Handshake);
    s.board = STALEMATE_FEN.parse().unwrap();
    let (out, note) = s.step(Command::Go);
    assert!(out.is_empty());
    assert_eq!(note, Some(SessionNote::NoMoveAvailable));
    assert_eq!(s.state, SessionState::InGame);
}

#[test]
fn reported_promotion_is_applied() {
    // White pawn on e7, kings on a8 and e1; the opponent reports e7e8q.
    let promotion_fen = "k7/4P3/8/8/8/8/8/4K3 w - - 0 1";
    let mut s = ready_session();
    s.board = promotion_fen.parse().unwrap();
    let cmd = decode_command("position startpos moves e7e8q").unwrap();
    let (out, note) = s.step(cmd);
    assert!(out.is_empty());
    assert_eq!(note, None);
    let mut expected: Board = promotion_fen.parse().unwrap();
    expected.play("e7e8q".parse().unwrap());
    assert_eq!(s.board, expected);
}

#[test]
fn promotion_report_without_choice_is_rejected() {
    // A bare e7e8 names no legal move when the pawn must promote.
    let promotion_fen = "k7/4P3/8/8/8/8/8/4K3 w - - 0 1";
    let mut s = ready_session();
    s.board = promotion_fen.parse().unwrap();
    let before = s.board.clone();
    let (out, note) = s.step(decode_command("position startpos moves e7e8").unwrap());
    assert!(out.is_empty());
    assert_eq!(note, Some(SessionNote::IllegalReportedMove));
    assert_eq!(s.board, before);
}

#[test]
fn quit_terminates_and_stops_processing() {
    let mut s = ready_session();
    let out = s.step(Command::Quit);
    assert!(out.0.is_empty());
    assert!(s.is_terminated());
    assert!(s.step(Command::Handshake).0.is_empty());
    assert!(s.step(Command::Go).0.is_empty());
    assert_eq!(s.state, SessionState::Terminated);
}

#[test]
fn quit_works_in_any_state() {
    let mut s = Session::new(RandomEngine);
    s.step(Command::Quit);
    assert!(s.is_terminated());
    let mut in_game = ready_session();
    in_game.step(decode_command("position startpos moves e2e4").unwrap());
    in_game.step(Command::Quit);
    assert!(in_game.is_terminated());
}

#[test]
fn unhandled_commands_are_ignored() {
    let mut s = ready_session();
    let before = s.board.clone();
    let out = s.step(decode_command("stop").unwrap());
    assert!(out.0.is_empty());
    assert_eq!(s.board, before);
    assert_eq!(s.state, SessionState::Ready);
}

#[test]
fn commands_before_handshake_do_not_touch_the_board() {
    let mut s = Session::new(RandomEngine);
    let out = s.step(decode_command("position startpos moves e2e4").unwrap());
    assert!(out.0.is_empty());
    assert_eq!(s.board, Board::default());
    assert!(s.step(Command::Go).0.is_empty());
    assert_eq!(s.state, SessionState::AwaitingHandshake);
}

use chess::cozy_helper::available_moves;
use chess::engine::Engine;
use chess::monte_carlo_aggressive_engine::{
    MonteCarloAggressiveEngine, SearchConfig, SearchShape,
};
use chess::moves::{Mv, PieceKind, Sq};
use chess::random::{rand_item, rand_num, random_move};
use chess::random_engine::RandomEngine;
use chess::score::{score_capture, score_move, score_move_set, ScoreConfig};
use cozy_chess::Board;

const STALEMATE_FEN: &str = "7k/5Q2/6K1/8/8/8/8/8 b - - 0 1";

fn quiet_mv() -> Mv {
    Mv { from: Sq { file: 0, rank: 0 }, to: Sq { file: 0, rank: 0 }, promotion: None }
}

#[test]
fn available_moves_of_start_position() {
    let board = Board::default();
    let moves = available_moves(&board);
    assert_eq!(moves.len(), 20);
    for m in &moves {
        assert!(m.from.file < 8 && m.from.rank < 8 && m.to.file < 8 && m.to.rank < 8);
    }
}

#[test]
fn random_agent_plays_legal_move() {
    let board = Board::default();
    let mv = RandomEngine.play(&board).expect("the start position has moves");
    assert!(available_moves(&board).contains(&mv));
}

#[test]
fn random_agent_returns_none_without_moves() {
    let board: Board = STALEMATE_FEN.parse().unwrap();
    assert_eq!(RandomEngine.play(&board), None);
}

#[test]
fn search_agent_returns_none_without_moves() {
    let board: Board = STALEMATE_FEN.parse().unwrap();
    assert_eq!(MonteCarloAggressiveEngine::new().play(&board), None);
}

fn small_search_engine() -> MonteCarloAggressiveEngine {
    let config = SearchConfig {
        depth: 3,
        shape: SearchShape::ShrinkingBreadth { breadth: 8, decay: 4 },
        scores: ScoreConfig::aggressive(),
    };
    MonteCarloAggressiveEngine::with_config(config).unwrap()
}

#[test]
fn default_search_parameters() {
    let engine = MonteCarloAggressiveEngine::new();
    assert_eq!(engine.config.depth, 5);
    assert_eq!(
        engine.config.shape,
        SearchShape::ShrinkingBreadth { breadth: 30, decay: 4 }
    );
}

#[test]
fn search_agent_plays_legal_move() {
    let board = Board::default();
    let mv = small_search_engine().play(&board).unwrap();
    assert!(available_moves(&board).contains(&mv));
}

#[test]
fn search_line_no_longer_than_depth() {
    let board = Board::default();
    let line = small_search_engine().best_line(&board);
    assert!(line.len() <= 3);
    assert!(!line.is_empty());
}

#[test]
fn flat_search_line_no_longer_than_depth() {
    let config = SearchConfig {
        depth: 3,
        shape: SearchShape::FixedIterations { iterations: 50 },
        scores: ScoreConfig::aggressive(),
    };
    let engine = MonteCarloAggressiveEngine::with_config(config).unwrap();
    let board = Board::default();
    let line = engine.best_line(&board);
    assert!(line.len() <= 3);
    assert!(!line.is_empty());
    assert!(available_moves(&board).contains(&line[0].1));
}

#[test]
fn with_config_rejects_zero_depth() {
    let config = SearchConfig {
        depth: 0,
        shape: SearchShape::FixedIterations { iterations: 1 },
        scores: ScoreConfig::aggressive(),
    };
    assert!(MonteCarloAggressiveEngine::with_config(config).is_none());
}

#[test]
fn with_config_rejects_zero_breadth() {
    let config = SearchConfig {
        depth: 4,
        shape: SearchShape::ShrinkingBreadth { breadth: 0, decay: 4 },
        scores: ScoreConfig::aggressive(),
    };
    assert!(MonteCarloAggressiveEngine::with_config(config).is_none());
}

#[test]
fn capture_table_values() {
    let c = ScoreConfig::aggressive();
    assert_eq!(score_capture(&c, Some(PieceKind::King)), 1000);
    assert_eq!(score_capture(&c, Some(PieceKind::Queen)), 350);
    assert_eq!(score_capture(&c, Some(PieceKind::Rook)), 100);
    assert_eq!(score_capture(&c, Some(PieceKind::Knight)), 100);
    assert_eq!(score_capture(&c, Some(PieceKind::Bishop)), 50);
    assert_eq!(score_capture(&c, Some(PieceKind::Pawn)), 25);
    assert_eq!(score_capture(&c, None), -10);
}

#[test]
fn score_move_reads_destination_before_apply() {
    // After 1. e4 d5, taking on d5 is worth a pawn; pushing on is not.
    let mut board = Board::default();
    board.play("e2e4".parse().unwrap());
    board.play("d7d5".parse().unwrap());
    let c = ScoreConfig::aggressive();
    let capture = Mv {
        from: Sq { file: 4, rank: 3 },
        to: Sq { file: 3, rank: 4 },
        promotion: None,
    };
    assert_eq!(score_move(&c, &board, &capture), 25);
    let push = Mv {
        from: Sq { file: 4, rank: 3 },
        to: Sq { file: 4, rank: 4 },
        promotion: None,
    };
    assert_eq!(score_move(&c, &board, &push), -10);
}

#[test]
fn aggregate_discounts_by_ply() {
    let c = ScoreConfig::aggressive();
    // The second ply's multiplier is 0.52 of the first: 520_000 of
    // 1_000_000 fixed-point.
    let line = vec![(100i64, quiet_mv()), (50i64, quiet_mv())];
    assert_eq!(score_move_set(&c, &line), 100 * 1_000_000 + 50 * 520_000);
}

#[test]
fn aggregate_is_order_sensitive() {
    let c = ScoreConfig::aggressive();
    let forward = vec![(100i64, quiet_mv()), (50i64, quiet_mv())];
    let reversed = vec![(50i64, quiet_mv()), (100i64, quiet_mv())];
    assert_ne!(score_move_set(&c, &forward), score_move_set(&c, &reversed));
    let same = vec![(70i64, quiet_mv()), (70i64, quiet_mv())];
    let same_reversed = vec![(70i64, quiet_mv()), (70i64, quiet_mv())];
    assert_eq!(score_move_set(&c, &same), score_move_set(&c, &same_reversed));
}

#[test]
fn empty_line_scores_zero() {
    assert_eq!(score_move_set(&ScoreConfig::aggressive(), &Vec::new()), 0);
}

#[test]
fn rand_num_stays_below_bound() {
    for _ in 0..100 {
        assert!(rand_num(3) < 3);
    }
}

#[test]
fn rand_item_on_empty_and_singleton() {
    let empty: Vec<u32> = Vec::new();
    assert!(rand_item(&empty).is_none());
    let one = vec![7u32];
    assert_eq!(rand_item(&one), Some(&7));
}

#[test]
fn random_move_none_on_stalemate() {
    let board: Board = STALEMATE_FEN.parse().unwrap();
    assert!(random_move(&board).is_none());
}

#[test]
fn random_move_is_legal() {
    let board = Board::default();
    let mv = random_move(&board).unwrap();
    assert!(available_moves(&board).contains(&mv));
}

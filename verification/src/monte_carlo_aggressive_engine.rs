//! The randomized, depth- and breadth-bounded game-tree search.
//!
//! The search simulates alternating random play for both sides — the
//! opponent is modelled by a real random reply, not a null move — scores
//! each simulated line with the discounted aggregate of `score`, and keeps
//! the best-scoring line found. Two sampling shapes are supported as
//! configuration: a recursive shape whose breadth shrinks per ply, and a
//! flat shape that replays independent single lines a fixed number of
//! times.

use vstd::prelude::*;

use crate::cozy_helper::{board_after, legal_of, occupant_of, try_apply};
use crate::engine::Engine;
use crate::moves::Mv;
use crate::random::random_move;
use crate::score::{
    capture_reward, rewards_bounded, score_move, score_move_set, ScoreConfig, LINE_MAX, REWARD_MAX,
};
use cozy_chess::Board;

verus! {

/// How candidate lines are sampled.
#[derive(Clone, Copy, PartialEq, Eq, Structural, Debug)]
pub enum SearchShape {
    /// At each ply, try up to `breadth` independent continuations,
    /// shrinking the breadth by `decay` per ply; a breadth that reaches
    /// zero simply ends the line early, which is allowed.
    ShrinkingBreadth { breadth: u32, decay: u32 },
    /// Play `iterations` independent single lines from the root and keep
    /// the best-scoring one; no branching inside a line.
    FixedIterations { iterations: u32 },
}

/// Immutable per-invocation search parameters.
#[derive(Clone, Copy, PartialEq, Eq, Structural, Debug)]
pub struct SearchConfig {
    /// Maximum length of a simulated line, in recorded plies.
    pub depth: u32,
    pub shape: SearchShape,
    pub scores: ScoreConfig,
}

impl SearchConfig {
    /// The depth is positive and within the scoring bound, at least one
    /// line is sampled, and the score table is valid.
    pub open spec fn wf(self) -> bool {
        &&& 1 <= self.depth <= LINE_MAX
        &&& match self.shape {
            SearchShape::ShrinkingBreadth { breadth, decay: _ } => breadth >= 1,
            SearchShape::FixedIterations { iterations } => iterations >= 1,
        }
        &&& self.scores.wf()
    }

    /// Runtime check for [`SearchConfig::wf`].
    pub fn is_wf(&self) -> (b: bool)
        ensures
            b == self.wf(),
    {
        let shape_ok = match self.shape {
            SearchShape::ShrinkingBreadth { breadth, decay: _ } => breadth >= 1,
            SearchShape::FixedIterations { iterations } => iterations >= 1,
        };
        let scores_ok = self.scores.king >= -REWARD_MAX && self.scores.king <= REWARD_MAX
            && self.scores.queen >= -REWARD_MAX && self.scores.queen <= REWARD_MAX
            && self.scores.rook >= -REWARD_MAX && self.scores.rook <= REWARD_MAX
            && self.scores.knight >= -REWARD_MAX && self.scores.knight <= REWARD_MAX
            && self.scores.bishop >= -REWARD_MAX && self.scores.bishop <= REWARD_MAX
            && self.scores.pawn >= -REWARD_MAX && self.scores.pawn <= REWARD_MAX
            && self.scores.quiet >= -REWARD_MAX && self.scores.quiet <= REWARD_MAX
            && self.scores.discount_num > 0
            && self.scores.discount_num <= self.scores.discount_den
            && self.scores.discount_den <= crate::score::MULT_ONE;
        1 <= self.depth && self.depth as usize <= LINE_MAX && shape_ok && scores_ok
    }
}

/// One opponent reply stands between recorded plies: some legal reply
/// advances the board, or the replying side has no legal move and the
/// board stays.
pub open spec fn opponent_step(b: Board, b2: Board) -> bool {
    ||| exists|om: Mv| #[trigger] legal_of(b).contains(om) && b2 == board_after(b, om)
    ||| legal_of(b).is_empty() && b2 == b
}

/// The entries form one simulated line of play from `b`, in
/// chronological order: each recorded move is legal on the board where
/// it is played and carries the capture reward of its destination square
/// there (evaluated before the move is applied), and one opponent reply
/// stands between recorded plies.
pub open spec fn line_from(r: Seq<(i64, Mv)>, b: Board, c: ScoreConfig) -> bool
    decreases r.len(),
{
    r.len() == 0 || {
        &&& legal_of(b).contains(r[0].1)
        &&& r[0].1.wf()
        &&& r[0].0 as int == capture_reward(c, occupant_of(b, r[0].1.to))
        &&& exists|b2: Board|
            #[trigger] opponent_step(board_after(b, r[0].1), b2) && line_from(
                r.drop_first(),
                b2,
                c,
            )
    }
}

/// What the search promises of a returned line: it is no longer than the
/// depth budget, its rewards are bounded, it is one simulated line of
/// play from the root position, and a position without legal moves
/// yields no line.
pub open spec fn line_ok(r: Seq<(i64, Mv)>, b: Board, limit: int, c: ScoreConfig) -> bool {
    &&& r.len() <= limit
    &&& line_from(r, b, c)
    &&& (legal_of(b).is_empty() ==> r.len() == 0)
    &&& rewards_bounded(r)
}

/// Draw a random legal move, record its capture reward (evaluated before
/// the move is applied), and apply it. Returns `None` exactly when the
/// position has no legal move, leaving the board unchanged.
pub fn play_random_move(board: &mut Board, scores: &ScoreConfig) -> (r: Option<(i64, Mv)>)
    requires
        scores.wf(),
    ensures
        match r {
            Some(p) => {
                &&& legal_of(*old(board)).contains(p.1)
                &&& p.1.wf()
                &&& *final(board) == board_after(*old(board), p.1)
                &&& p.0 as int == capture_reward(*scores, occupant_of(*old(board), p.1.to))
                &&& -REWARD_MAX <= p.0 <= REWARD_MAX
            },
            None => legal_of(*old(board)).is_empty() && *final(board) == *old(board),
        },
{
    let next_move = match random_move(board) {
        Some(m) => m,
        None => {
            return None;
        },
    };
    let score = score_move(scores, board, &next_move);
    match try_apply(board, next_move) {
        Ok(()) => Some((score, next_move)),
        Err(_) => None,
    }
}

/// One level of the shrinking-breadth search: sample up to `breadth`
/// continuations, each opening with a random move for the playing side
/// and a random opponent reply, and keep the line whose aggregate score
/// is highest; on ties the first line found is kept.
pub fn simulate_random(
    board: &Board,
    remaining_steps: u32,
    breadth: u32,
    decay: u32,
    scores: &ScoreConfig,
) -> (r: Vec<(i64, Mv)>)
    requires
        scores.wf(),
        remaining_steps as usize <= LINE_MAX,
    ensures
        line_ok(r@, *board, remaining_steps as int, *scores),
        remaining_steps >= 1 && breadth >= 1 && !legal_of(*board).is_empty() ==> r@.len() > 0,
    decreases remaining_steps,
{
    if remaining_steps == 0 {
        return Vec::new();
    }
    let mut best: Option<(i64, Vec<(i64, Mv)>)> = None;
    for t in 0..breadth
        invariant
            scores.wf(),
            1 <= remaining_steps,
            remaining_steps as usize <= LINE_MAX,
            match best {
                Some(p) => p.1@.len() > 0 && line_ok(p.1@, *board, remaining_steps as int, *scores),
                None => t == 0 || legal_of(*board).is_empty(),
            },
            legal_of(*board).is_empty() ==> best is None,
    {
        let mut temp_board = board.clone();
        // One random move for the playing side, with its reward.
        if let Some(first) = play_random_move(&mut temp_board, scores) {
            let ghost b1: Board = temp_board;
            // One random opponent reply.
            let _reply = play_random_move(&mut temp_board, scores);
            let ghost b2: Board = temp_board;
            proof {
                assert(opponent_step(b1, b2));
            }
            // The opportunities the move opens, one ply deeper and narrower.
            let next_breadth: u32 = if breadth > decay {
                breadth - decay
            } else {
                0
            };
            let mut additional_moves = simulate_random(
                &temp_board,
                remaining_steps - 1,
                next_breadth,
                decay,
                scores,
            );
            let ghost add0: Seq<(i64, Mv)> = additional_moves@;
            let mut all_moves: Vec<(i64, Mv)> = Vec::new();
            all_moves.push(first);
            all_moves.append(&mut additional_moves);
            proof {
                assert(all_moves@.drop_first() =~= add0);
                assert(line_from(all_moves@, *board, *scores));
            }
            let overall_score = score_move_set(scores, &all_moves);
            let replace = match &best {
                None => true,
                Some(p) => overall_score > p.0,
            };
            if replace {
                best = Some((overall_score, all_moves));
            }
        }
    }
    match best {
        Some(p) => p.1,
        None => Vec::new(),
    }
}

/// One flat simulated line: at each ply play one random move for the
/// playing side (recording its reward) and one random opponent reply,
/// then continue, until the depth budget or the legal moves run out.
pub fn simulate_line(board: &mut Board, remaining_steps: u32, scores: &ScoreConfig) -> (r: Vec<
    (i64, Mv),
>)
    requires
        scores.wf(),
        remaining_steps as usize <= LINE_MAX,
    ensures
        line_ok(r@, *old(board), remaining_steps as int, *scores),
        remaining_steps >= 1 && !legal_of(*old(board)).is_empty() ==> r@.len() > 0,
    decreases remaining_steps,
{
    if remaining_steps == 0 {
        return Vec::new();
    }
    let ghost b0: Board = *board;
    let first = match play_random_move(board, scores) {
        Some(p) => p,
        None => {
            return Vec::new();
        },
    };
    let ghost b1: Board = *board;
    let _reply = play_random_move(board, scores);
    let ghost b2: Board = *board;
    proof {
        assert(opponent_step(b1, b2));
    }
    let mut rest = simulate_line(board, remaining_steps - 1, scores);
    let ghost rest0: Seq<(i64, Mv)> = rest@;
    let mut all_moves: Vec<(i64, Mv)> = Vec::new();
    all_moves.push(first);
    all_moves.append(&mut rest);
    proof {
        assert(all_moves@.drop_first() =~= rest0);
        assert(line_from(all_moves@, b0, *scores));
    }
    all_moves
}

/// The search agent: Monte-Carlo sampling of capture-greedy lines.
pub struct MonteCarloAggressiveEngine {
    pub config: SearchConfig,
}

impl MonteCarloAggressiveEngine {
    /// The parameters the engine ships with: lines of up to five recorded
    /// plies, thirty samples shrinking by four per ply, and the
    /// aggressive capture table.
    pub fn new() -> (e: MonteCarloAggressiveEngine)
        ensures
            e.inv(),
            e.config.depth == 5,
            e.config.shape == (SearchShape::ShrinkingBreadth { breadth: 30u32, decay: 4u32 }),
    {
        MonteCarloAggressiveEngine {
            config: SearchConfig {
                depth: 5,
                shape: SearchShape::ShrinkingBreadth { breadth: 30, decay: 4 },
                scores: ScoreConfig::aggressive(),
            },
        }
    }

    /// Build the engine from explicit search parameters, rejecting
    /// parameters outside the supported bounds.
    pub fn with_config(config: SearchConfig) -> (r: Option<MonteCarloAggressiveEngine>)
        ensures
            config.wf() ==> r == Some((MonteCarloAggressiveEngine { config })),
            !config.wf() ==> r is None,
    {
        if config.is_wf() {
            Some(MonteCarloAggressiveEngine { config })
        } else {
            None
        }
    }

    /// Run the configured search from `board` and return the best-scoring
    /// simulated line; its first move is the move to play. The line is
    /// never longer than the configured depth.
    pub fn best_line(&self, board: &Board) -> (r: Vec<(i64, Mv)>)
        requires
            self.config.wf(),
        ensures
            line_ok(r@, *board, self.config.depth as int, self.config.scores),
            !legal_of(*board).is_empty() ==> r@.len() > 0,
    {
        match self.config.shape {
            SearchShape::ShrinkingBreadth { breadth, decay } => simulate_random(
                board,
                self.config.depth,
                breadth,
                decay,
                &self.config.scores,
            ),
            SearchShape::FixedIterations { iterations } => {
                let mut best: Option<(i64, Vec<(i64, Mv)>)> = None;
                for t in 0..iterations
                    invariant
                        self.config.wf(),
                        match best {
                            Some(p) => p.1@.len() > 0 && line_ok(
                                p.1@,
                                *board,
                                self.config.depth as int,
                                self.config.scores,
                            ),
                            None => t == 0 || legal_of(*board).is_empty(),
                        },
                        legal_of(*board).is_empty() ==> best is None,
                {
                    let mut temp_board = board.clone();
                    let line = simulate_line(&mut temp_board, self.config.depth, &self.config.scores);
                    if line.len() > 0 {
                        let line_total = score_move_set(&self.config.scores, &line);
                        let replace = match &best {
                            None => true,
                            Some(p) => line_total > p.0,
                        };
                        if replace {
                            best = Some((line_total, line));
                        }
                    }
                }
                match best {
                    Some(p) => p.1,
                    None => Vec::new(),
                }
            },
        }
    }
}

impl Engine for MonteCarloAggressiveEngine {
    open spec fn inv(&self) -> bool {
        self.config.wf()
    }

    fn play(&self, board: &Board) -> (r: Option<Mv>) {
        let next_move_set = self.best_line(board);
        if next_move_set.len() == 0 {
            None
        } else {
            Some(next_move_set[0].1)
        }
    }
}

} // verus!

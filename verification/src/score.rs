//! Move scoring and discounted line aggregation.
//!
//! A simulated line of play is a sequence of `(reward, move)` pairs; its
//! aggregate score is the sum of each reward times a geometric discount
//! multiplier raised to the pair's ply index. Scores are integers: rewards
//! are configured in tenths of a point, and the discount multiplier is a
//! fixed-point fraction scaled by [`MULT_ONE`].

use vstd::prelude::*;

use crate::cozy_helper::{occupant, occupant_of};
use crate::moves::{Mv, PieceKind};
use cozy_chess::Board;

verus! {

/// Fixed-point scale of the per-ply discount multiplier: a multiplier of
/// `MULT_ONE` means no discount.
pub const MULT_ONE: u64 = 1_000_000;

/// Bound on the magnitude of a single configured reward.
pub const REWARD_MAX: i64 = 1_000_000;

/// Bound on the length of a scored move sequence (and so on the search
/// depth); it keeps aggregate scores far from `i64` overflow.
pub const LINE_MAX: usize = 64;

/// Capture rewards and the per-ply discount, exposed as configuration:
/// the exact constants are tuning parameters, not structure. Rewards are
/// in tenths of a point, so `25` stands for two and a half; the discount
/// is the fraction `discount_num / discount_den`, in `(0, 1]`.
#[derive(Clone, Copy, PartialEq, Eq, Structural, Debug)]
pub struct ScoreConfig {
    pub king: i64,
    pub queen: i64,
    pub rook: i64,
    pub knight: i64,
    pub bishop: i64,
    pub pawn: i64,
    /// Reward of a move that captures nothing.
    pub quiet: i64,
    pub discount_num: u64,
    pub discount_den: u64,
}

impl ScoreConfig {
    /// Rewards are bounded and the discount is a fraction in `(0, 1]`.
    pub open spec fn wf(self) -> bool {
        &&& -REWARD_MAX <= self.king <= REWARD_MAX
        &&& -REWARD_MAX <= self.queen <= REWARD_MAX
        &&& -REWARD_MAX <= self.rook <= REWARD_MAX
        &&& -REWARD_MAX <= self.knight <= REWARD_MAX
        &&& -REWARD_MAX <= self.bishop <= REWARD_MAX
        &&& -REWARD_MAX <= self.pawn <= REWARD_MAX
        &&& -REWARD_MAX <= self.quiet <= REWARD_MAX
        &&& 0 < self.discount_num <= self.discount_den
        &&& self.discount_den <= MULT_ONE
    }

    /// The capture table and discount the aggressive engine ships with:
    /// King 100, Queen 35, Rook and Knight 10, Bishop 5, Pawn 2.5, quiet
    /// moves -1, and a per-ply discount of 0.52.
    pub fn aggressive() -> (c: ScoreConfig)
        ensures
            c.wf(),
            c == (ScoreConfig {
                king: 1000i64,
                queen: 350i64,
                rook: 100i64,
                knight: 100i64,
                bishop: 50i64,
                pawn: 25i64,
                quiet: -10i64,
                discount_num: 13u64,
                discount_den: 25u64,
            }),
    {
        ScoreConfig {
            king: 1000,
            queen: 350,
            rook: 100,
            knight: 100,
            bishop: 50,
            pawn: 25,
            quiet: -10,
            discount_num: 13,
            discount_den: 25,
        }
    }
}

/// The configured reward for capturing the given occupant.
pub open spec fn capture_reward(c: ScoreConfig, occ: Option<PieceKind>) -> int {
    match occ {
        Some(PieceKind::King) => c.king as int,
        Some(PieceKind::Queen) => c.queen as int,
        Some(PieceKind::Rook) => c.rook as int,
        Some(PieceKind::Knight) => c.knight as int,
        Some(PieceKind::Bishop) => c.bishop as int,
        Some(PieceKind::Pawn) => c.pawn as int,
        None => c.quiet as int,
    }
}

/// Deterministic table lookup from a captured piece (or no capture) to
/// its reward.
pub fn score_capture(c: &ScoreConfig, occ: Option<PieceKind>) -> (r: i64)
    ensures
        r as int == capture_reward(*c, occ),
{
    match occ {
        Some(PieceKind::King) => c.king,
        Some(PieceKind::Queen) => c.queen,
        Some(PieceKind::Rook) => c.rook,
        Some(PieceKind::Knight) => c.knight,
        Some(PieceKind::Bishop) => c.bishop,
        Some(PieceKind::Pawn) => c.pawn,
        None => c.quiet,
    }
}

/// The reward of a move on `board`: the reward for whatever stands on its
/// destination square, evaluated before the move is applied.
pub fn score_move(c: &ScoreConfig, board: &Board, m: &Mv) -> (r: i64)
    requires
        m.wf(),
    ensures
        r as int == capture_reward(*c, occupant_of(*board, m.to)),
{
    let occ = occupant(board, m.to);
    score_capture(c, occ)
}

/// One discount step: the next ply's multiplier.
pub open spec fn next_mult(c: ScoreConfig, m: int) -> int {
    m * (c.discount_num as int) / (c.discount_den as int)
}

/// The multiplier after `k` discount steps, starting from `m`.
pub open spec fn mult_from(c: ScoreConfig, m: int, k: nat) -> int
    decreases k,
{
    if k == 0 {
        m
    } else {
        mult_from(c, next_mult(c, m), (k - 1) as nat)
    }
}

/// The discount multiplier of ply index `k` (index 0 is undiscounted).
pub open spec fn mult_at(c: ScoreConfig, k: nat) -> int {
    mult_from(c, MULT_ONE as int, k)
}

/// The aggregate score of a reward sequence whose first entry carries the
/// multiplier `m`: each reward weighs in with its ply's multiplier.
pub open spec fn line_score(c: ScoreConfig, rewards: Seq<int>, m: int) -> int
    decreases rewards.len(),
{
    if rewards.len() == 0 {
        0
    } else {
        rewards[0] * m + line_score(c, rewards.drop_first(), next_mult(c, m))
    }
}

/// The rewards of a scored move sequence, in order.
pub open spec fn rewards_of(entries: Seq<(i64, Mv)>) -> Seq<int> {
    entries.map_values(|p: (i64, Mv)| p.0 as int)
}

/// Every reward of the sequence lies within [`REWARD_MAX`].
pub open spec fn rewards_bounded(entries: Seq<(i64, Mv)>) -> bool {
    forall|i: int| 0 <= i < entries.len() ==> -REWARD_MAX <= (#[trigger] entries[i]).0 <= REWARD_MAX
}

/// The aggregate score of one simulated line of play, discounting each
/// ply's reward geometrically.
pub fn score_move_set(c: &ScoreConfig, moves: &Vec<(i64, Mv)>) -> (total: i64)
    requires
        c.wf(),
        moves@.len() <= LINE_MAX,
        rewards_bounded(moves@),
    ensures
        total as int == line_score(*c, rewards_of(moves@), MULT_ONE as int),
{
    let ghost rs: Seq<int> = rewards_of(moves@);
    let mut total: i64 = 0;
    let mut mult: u64 = MULT_ONE;
    let n: usize = moves.len();
    proof {
        assert(rs.skip(0) =~= rs);
    }
    for i in 0..n
        invariant
            n == moves@.len(),
            n <= LINE_MAX,
            c.wf(),
            rewards_bounded(moves@),
            rs == rewards_of(moves@),
            0 <= mult <= MULT_ONE,
            line_score(*c, rs, MULT_ONE as int) == total + line_score(
                *c,
                rs.skip(i as int),
                mult as int,
            ),
            -(i as int) * 1_000_000_000_000 <= total as int <= (i as int) * 1_000_000_000_000,
    {
        let r: i64 = moves[i].0;
        let ghost m0: int = mult as int;
        let ghost t0: int = total as int;
        proof {
            assert(rs[i as int] == r as int);
            assert(rs.skip(i as int).drop_first() =~= rs.skip(i as int + 1));
            assert(rs.skip(i as int)[0] == rs[i as int]);
            assert(-1_000_000_000_000 <= (r as int) * m0 <= 1_000_000_000_000)
                by (nonlinear_arith)
                requires
                    -1_000_000 <= r as int <= 1_000_000,
                    0 <= m0 <= 1_000_000,
            ;
        }
        let term: i64 = r * (mult as i64);
        total = total + term;
        let ghost num: int = c.discount_num as int;
        let ghost den: int = c.discount_den as int;
        proof {
            assert(0 <= m0 * num <= 1_000_000_000_000) by (nonlinear_arith)
                requires
                    0 <= m0 <= 1_000_000,
                    0 <= num <= 1_000_000,
            ;
            assert(0 <= m0 * num / den <= m0) by (nonlinear_arith)
                requires
                    0 <= m0 <= 1_000_000,
                    0 < num <= den,
            ;
        }
        let product: u64 = mult * c.discount_num;
        mult = product / c.discount_den;
        proof {
            assert(mult as int == next_mult(*c, m0));
            assert(line_score(*c, rs.skip(i as int), m0) == (r as int) * m0 + line_score(
                *c,
                rs.skip(i as int + 1),
                next_mult(*c, m0),
            ));
            assert(total as int == t0 + (r as int) * m0);
        }
    }
    proof {
        assert(rs.skip(n as int) =~= Seq::<int>::empty());
    }
    total
}

/// Changing one reward of a line changes its aggregate score by the
/// difference times that ply's multiplier.
proof fn lemma_line_score_update(c: ScoreConfig, rs: Seq<int>, m: int, k: int, x: int)
    requires
        0 <= k < rs.len(),
    ensures
        line_score(c, rs.update(k, x), m) == line_score(c, rs, m) + (x - rs[k]) * mult_from(
            c,
            m,
            k as nat,
        ),
    decreases k,
{
    if k == 0 {
        assert(rs.update(0, x).drop_first() =~= rs.drop_first());
        assert(rs.update(0, x)[0] == x);
        assert(x * m == rs[0] * m + (x - rs[0]) * m) by (nonlinear_arith);
    } else {
        assert(rs.update(k, x).drop_first() =~= rs.drop_first().update(k - 1, x));
        assert(rs.update(k, x)[0] == rs[0]);
        lemma_line_score_update(c, rs.drop_first(), next_mult(c, m), k - 1, x);
        assert(rs.drop_first()[k - 1] == rs[k]);
    }
}

/// Score aggregation is order-sensitive: swapping two rewards that stand
/// at plies with different discount multipliers changes the aggregate
/// score, unless the two rewards are equal.
pub proof fn lemma_reorder_changes_score(c: ScoreConfig, rs: Seq<int>, i: int, j: int)
    requires
        0 <= i < j < rs.len(),
        rs[i] != rs[j],
        mult_at(c, i as nat) != mult_at(c, j as nat),
    ensures
        line_score(c, rs.update(i, rs[j]).update(j, rs[i]), MULT_ONE as int) != line_score(
            c,
            rs,
            MULT_ONE as int,
        ),
{
    let s1 = rs.update(i, rs[j]);
    let mi = mult_from(c, MULT_ONE as int, i as nat);
    let mj = mult_from(c, MULT_ONE as int, j as nat);
    lemma_line_score_update(c, rs, MULT_ONE as int, i, rs[j]);
    lemma_line_score_update(c, s1, MULT_ONE as int, j, rs[i]);
    assert(s1[j] == rs[j]);
    assert((rs[j] - rs[i]) * mi + (rs[i] - rs[j]) * mj == (rs[j] - rs[i]) * (mi - mj))
        by (nonlinear_arith);
    assert((rs[j] - rs[i]) * (mi - mj) != 0) by (nonlinear_arith)
        requires
            rs[j] - rs[i] != 0,
            mi - mj != 0,
    ;
}

/// Swapping two equal rewards leaves the aggregate score unchanged.
pub proof fn lemma_reorder_equal_rewards(c: ScoreConfig, rs: Seq<int>, i: int, j: int)
    requires
        0 <= i < j < rs.len(),
        rs[i] == rs[j],
    ensures
        line_score(c, rs.update(i, rs[j]).update(j, rs[i]), MULT_ONE as int) == line_score(
            c,
            rs,
            MULT_ONE as int,
        ),
{
    assert(rs.update(i, rs[j]).update(j, rs[i]) =~= rs);
}

} // verus!

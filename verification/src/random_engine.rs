//! The pure-random agent.

use vstd::prelude::*;

verus! {

/// An agent that plays a uniformly random legal move.
pub struct RandomEngine;

impl crate::engine::Engine for RandomEngine {
    open spec fn inv(&self) -> bool {
        true
    }

    fn play(&self, board: &cozy_chess::Board) -> (r: Option<crate::moves::Mv>) {
        crate::random::random_move(board)
    }
}

} // verus!

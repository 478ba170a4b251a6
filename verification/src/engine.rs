//! The agent capability: given a position, choose a move.

use vstd::prelude::*;

use crate::cozy_helper::legal_of;
use crate::moves::Mv;
use cozy_chess::Board;

verus! {

/// An agent that can pick a move to play. The session state machine is
/// parameterized by this capability and does not care which variant is
/// active.
pub trait Engine {
    /// Validity of the agent's own configuration; constructors establish
    /// it and `play` relies on it.
    spec fn inv(&self) -> bool;

    /// Choose a move to play on `board`. Returns `None` exactly when the
    /// position has no legal move; a returned move is drawn from the
    /// position's legal-move set.
    fn play(&self, board: &Board) -> (r: Option<Mv>)
        requires
            self.inv(),
        ensures
            r is None <==> legal_of(*board).is_empty(),
            r matches Some(m) ==> legal_of(*board).contains(m) && m.wf(),
    ;
}

} // verus!

//! Plain-value board coordinates, piece kinds and moves.
//!
//! The board itself is an opaque `cozy_chess::Board`; these types carry the
//! parts of a move that the core logic reads and writes.

use vstd::prelude::*;

verus! {

/// A square, as a zero-based file (column) and rank (row) pair.
#[derive(Clone, Copy, PartialEq, Eq, Structural, Debug)]
pub struct Sq {
    pub file: u8,
    pub rank: u8,
}

impl Sq {
    /// A square is on the board when both coordinates are below eight.
    pub open spec fn wf(self) -> bool {
        self.file < 8 && self.rank < 8
    }
}

/// The kind of a chess piece, without its colour.
#[derive(Clone, Copy, PartialEq, Eq, Structural, Debug)]
pub enum PieceKind {
    Pawn,
    Knight,
    Bishop,
    Rook,
    Queen,
    King,
}

/// A move: origin square, destination square, and an optional promotion
/// choice. Moves are drawn from the rules engine's legal-move enumeration or
/// decoded from the protocol; they are never re-validated against a position
/// other than the one they were drawn for.
#[derive(Clone, Copy, PartialEq, Eq, Structural, Debug)]
pub struct Mv {
    pub from: Sq,
    pub to: Sq,
    pub promotion: Option<PieceKind>,
}

impl Mv {
    /// Both endpoints lie on the board.
    pub open spec fn wf(self) -> bool {
        self.from.wf() && self.to.wf()
    }

    /// Runtime check for [`Mv::wf`].
    pub fn is_wf(&self) -> (b: bool)
        ensures
            b == self.wf(),
    {
        self.from.file < 8 && self.from.rank < 8 && self.to.file < 8 && self.to.rank < 8
    }
}

} // verus!

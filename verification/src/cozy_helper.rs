//! Adapter to the `cozy_chess` rules engine.
//!
//! The core never re-implements move legality: legal-move enumeration,
//! move application and square occupancy are all `cozy_chess` calls behind
//! the trusted wrappers of this module. Verification reasons about boards
//! through the uninterpreted functions named here.

use vstd::prelude::*;

use crate::moves::{Mv, PieceKind, Sq};
use crate::uci::{mv_of_wire, wire_error, wire_ok, ProtocolDecodeError, WireMove};
use cozy_chess::Board;

verus! {

/// `cozy_chess::Board` is the rules engine's position type; it is opaque
/// to verification and is only read or changed through the wrappers below.
#[verifier::external_type_specification]
#[verifier::external_body]
pub struct ExBoard(Board);

/// `cozy_chess::Piece` is a plain fieldless enum; its variants are left
/// visible so that the piece translations below can be verified.
#[verifier::external_type_specification]
pub struct ExPiece(cozy_chess::Piece);

/// The set of legal moves of a board, as `cozy_chess`'s move generation
/// reports it. The generation order is documented as unspecified, so only
/// the set is named; it is a function of the board value alone.
pub uninterp spec fn legal_of(b: Board) -> Set<Mv>;

/// The board that results from applying a legal move to a board.
pub uninterp spec fn board_after(b: Board, m: Mv) -> Board;

/// The piece standing on a square of a board, if any.
pub uninterp spec fn occupant_of(b: Board, s: Sq) -> Option<PieceKind>;

/// Whether a board holds the standard chess starting position.
pub uninterp spec fn is_start_board(b: Board) -> bool;

/// Relies on the `Clone` impl that `cozy_chess` derives for `Board`:
/// a clone is an equal board value.
pub assume_specification[ <Board as Clone>::clone ](b: &Board) -> (r: Board)
    ensures
        r == *b,
;

/// Relies on `cozy_chess::Board::default`, which builds the standard
/// starting position.
#[verifier::external_body]
pub(crate) fn starting_board() -> (b: Board)
    ensures
        is_start_board(b),
{
    Board::default()
}

/// The library's name for each `cozy_chess` piece.
pub open spec fn piece_kind_of(p: cozy_chess::Piece) -> PieceKind {
    match p {
        cozy_chess::Piece::Pawn => PieceKind::Pawn,
        cozy_chess::Piece::Knight => PieceKind::Knight,
        cozy_chess::Piece::Bishop => PieceKind::Bishop,
        cozy_chess::Piece::Rook => PieceKind::Rook,
        cozy_chess::Piece::Queen => PieceKind::Queen,
        cozy_chess::Piece::King => PieceKind::King,
    }
}

/// Translate a `cozy_chess` piece into the library's piece kind.
pub(crate) fn kind_of_piece(p: cozy_chess::Piece) -> (k: PieceKind)
    ensures
        k == piece_kind_of(p),
{
    match p {
        cozy_chess::Piece::Pawn => PieceKind::Pawn,
        cozy_chess::Piece::Knight => PieceKind::Knight,
        cozy_chess::Piece::Bishop => PieceKind::Bishop,
        cozy_chess::Piece::Rook => PieceKind::Rook,
        cozy_chess::Piece::Queen => PieceKind::Queen,
        cozy_chess::Piece::King => PieceKind::King,
    }
}

/// Translate one of the library's piece kinds back into a `cozy_chess`
/// piece.
pub(crate) fn piece_of_kind(k: PieceKind) -> (p: cozy_chess::Piece)
    ensures
        piece_kind_of(p) == k,
{
    match k {
        PieceKind::Pawn => cozy_chess::Piece::Pawn,
        PieceKind::Knight => cozy_chess::Piece::Knight,
        PieceKind::Bishop => cozy_chess::Piece::Bishop,
        PieceKind::Rook => cozy_chess::Piece::Rook,
        PieceKind::Queen => cozy_chess::Piece::Queen,
        PieceKind::King => cozy_chess::Piece::King,
    }
}

/// Relies on `cozy_chess::Board::generate_moves`: the callback receives
/// exactly the legal moves of the position, each exactly once and each
/// with on-board squares.
#[verifier::external_body]
pub fn available_moves(board: &Board) -> (r: Vec<Mv>)
    ensures
        forall|m: Mv| (#[trigger] r@.contains(m)) <==> legal_of(*board).contains(m),
        r@.len() == 0 <==> legal_of(*board).is_empty(),
        forall|i: int| 0 <= i < r@.len() ==> (#[trigger] r@[i]).wf(),
        forall|i: int, j: int|
            #![trigger r@[i], r@[j]]
            0 <= i < j < r@.len() ==> r@[i] != r@[j],
{
    let mut list: Vec<cozy_chess::Move> = Vec::new();
    board.generate_moves(|ms| {
        list.extend(ms);
        false
    });
    let mut out: Vec<Mv> = Vec::new();
    for m in list {
        let from = Sq { file: m.from.file() as u8, rank: m.from.rank() as u8 };
        let to = Sq { file: m.to.file() as u8, rank: m.to.rank() as u8 };
        out.push(Mv { from, to, promotion: m.promotion.map(kind_of_piece) });
    }
    out
}

/// Relies on `cozy_chess::Board::play_unchecked`: applying a move drawn
/// from this same board's legal-move set yields the successor position.
/// Illegal moves may corrupt the board, so legality is required.
#[verifier::external_body]
pub(crate) fn apply_trusted(board: &mut Board, m: Mv)
    requires
        m.wf(),
        legal_of(*old(board)).contains(m),
    ensures
        *final(board) == board_after(*old(board), m),
{
    let from = cozy_chess::Square::new(
        cozy_chess::File::try_index(m.from.file as usize).unwrap(),
        cozy_chess::Rank::try_index(m.from.rank as usize).unwrap(),
    );
    let to = cozy_chess::Square::new(
        cozy_chess::File::try_index(m.to.file as usize).unwrap(),
        cozy_chess::Rank::try_index(m.to.rank as usize).unwrap(),
    );
    board.play_unchecked(cozy_chess::Move { from, to, promotion: m.promotion.map(piece_of_kind) });
}

/// Applying a move failed the rules engine's own legality check.
#[derive(Clone, Copy, PartialEq, Eq, Structural, Debug)]
pub struct IllegalMoveError;

/// Relies on `cozy_chess::Board::try_play`: it validates the move, plays
/// it on success, and returns an error leaving the board unchanged
/// otherwise. A move is accepted exactly when it is legal, that is, a
/// member of the board's legal-move set.
#[verifier::external_body]
pub(crate) fn try_apply(board: &mut Board, m: Mv) -> (r: Result<(), IllegalMoveError>)
    requires
        m.wf(),
    ensures
        r is Ok <==> legal_of(*old(board)).contains(m),
        r is Ok ==> *final(board) == board_after(*old(board), m),
        r is Err ==> *final(board) == *old(board),
{
    let from = cozy_chess::Square::new(
        cozy_chess::File::try_index(m.from.file as usize).unwrap(),
        cozy_chess::Rank::try_index(m.from.rank as usize).unwrap(),
    );
    let to = cozy_chess::Square::new(
        cozy_chess::File::try_index(m.to.file as usize).unwrap(),
        cozy_chess::Rank::try_index(m.to.rank as usize).unwrap(),
    );
    let mv = cozy_chess::Move { from, to, promotion: m.promotion.map(piece_of_kind) };
    match board.try_play(mv) {
        Ok(()) => Ok(()),
        Err(_) => Err(IllegalMoveError),
    }
}

/// Relies on `cozy_chess::Board::piece_on`: the piece occupying a square,
/// if any.
#[verifier::external_body]
pub(crate) fn occupant(board: &Board, s: Sq) -> (r: Option<PieceKind>)
    requires
        s.wf(),
    ensures
        r == occupant_of(*board, s),
{
    let sq = cozy_chess::Square::new(
        cozy_chess::File::try_index(s.file as usize).unwrap(),
        cozy_chess::Rank::try_index(s.rank as usize).unwrap(),
    );
    board.piece_on(sq).map(kind_of_piece)
}

/// The zero-based file index a wire file letter names, if any.
pub open spec fn file_index_of(c: char) -> Option<u8> {
    match c {
        'a' => Some(0u8),
        'b' => Some(1u8),
        'c' => Some(2u8),
        'd' => Some(3u8),
        'e' => Some(4u8),
        'f' => Some(5u8),
        'g' => Some(6u8),
        'h' => Some(7u8),
        _ => None,
    }
}

/// The zero-based rank index a wire rank number names, if any.
pub open spec fn rank_index_of(r: u8) -> Option<u8> {
    if 1 <= r && r <= 8 {
        Some((r - 1) as u8)
    } else {
        None
    }
}

/// The wire file letter of a zero-based file index below eight.
pub open spec fn file_letter_of(f: u8) -> char
    recommends
        f < 8,
{
    match f {
        0u8 => 'a',
        1u8 => 'b',
        2u8 => 'c',
        3u8 => 'd',
        4u8 => 'e',
        5u8 => 'f',
        6u8 => 'g',
        _ => 'h',
    }
}

/// Turn a board square into its wire form, a file letter and a one-based
/// rank number.
pub fn uci_square_of_cozy_square(s: Sq) -> (r: (char, u8))
    requires
        s.wf(),
    ensures
        r.0 == file_letter_of(s.file),
        r.1 == s.rank + 1,
{
    let letter = match s.file {
        0u8 => 'a',
        1u8 => 'b',
        2u8 => 'c',
        3u8 => 'd',
        4u8 => 'e',
        5u8 => 'f',
        6u8 => 'g',
        _ => 'h',
    };
    (letter, s.rank + 1)
}

/// Turn a wire square into a board square, rejecting letters and numbers
/// that name no file or rank.
pub fn cozy_square_of_uci_square(file: char, rank: u8) -> (r: Result<
    Sq,
    ProtocolDecodeError,
>)
    ensures
        match (file_index_of(file), rank_index_of(rank)) {
            (Some(f), Some(k)) => r == Ok::<Sq, ProtocolDecodeError>((Sq { file: f, rank: k })),
            (None, _) => r == Err::<Sq, ProtocolDecodeError>(ProtocolDecodeError::InvalidFile(file)),
            (Some(_), None) => r == Err::<Sq, ProtocolDecodeError>(
                ProtocolDecodeError::InvalidRank(rank),
            ),
        },
{
    let f: u8 = match file {
        'a' => 0u8,
        'b' => 1u8,
        'c' => 2u8,
        'd' => 3u8,
        'e' => 4u8,
        'f' => 5u8,
        'g' => 6u8,
        'h' => 7u8,
        _ => {
            return Err(ProtocolDecodeError::InvalidFile(file));
        },
    };
    if 1 <= rank && rank <= 8 {
        Ok(Sq { file: f, rank: rank - 1 })
    } else {
        Err(ProtocolDecodeError::InvalidRank(rank))
    }
}

/// Turn a reported wire move into a board move, rejecting squares that
/// do not exist. The reported promotion choice is carried through; the
/// rules engine judges its legality when the move is applied.
pub fn cozy_move_of_uci_move(w: &WireMove) -> (r: Result<Mv, ProtocolDecodeError>)
    ensures
        wire_ok(*w) ==> r == Ok::<Mv, ProtocolDecodeError>(mv_of_wire(*w)),
        !wire_ok(*w) ==> r == Err::<Mv, ProtocolDecodeError>(wire_error(*w)),
{
    let from = match cozy_square_of_uci_square(w.from_file, w.from_rank) {
        Ok(s) => s,
        Err(e) => {
            return Err(e);
        },
    };
    let to = match cozy_square_of_uci_square(w.to_file, w.to_rank) {
        Ok(s) => s,
        Err(e) => {
            return Err(e);
        },
    };
    Ok(Mv { from, to, promotion: w.promotion })
}

} // verus!

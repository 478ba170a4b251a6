//! Wire-protocol boundary: decoding incoming UCI lines and rendering
//! outgoing ones, through the `vampirc_uci` codec.
//!
//! Decoding folds the codec's message enum onto the small closed set of
//! command kinds the session reacts to; any other message becomes
//! [`RawCommand::Other`] and is safely ignored. A line whose moves name
//! impossible squares is a recoverable decode error: the caller logs it
//! and reads the next line.

use vstd::prelude::*;
use vstd::string::StrSliceExecFns;

use crate::cozy_helper::{file_index_of, file_letter_of, rank_index_of};
use crate::moves::{Mv, PieceKind, Sq};
use vampirc_uci::{UciMessage, UciMove, UciPiece, UciSquare};

verus! {

/// `vampirc_uci::UciPiece` is a plain fieldless enum; its variants are
/// left visible so that the promotion translation below can be verified.
#[verifier::external_type_specification]
pub struct ExUciPiece(UciPiece);

/// A move as it stands on the wire: file letters `'a'..'h'`, rank
/// numbers `1..8`, and an optional trailing promotion marker, exactly as
/// the protocol writes moves.
#[derive(Clone, Copy, PartialEq, Eq, Structural, Debug)]
pub struct WireMove {
    pub from_file: char,
    pub from_rank: u8,
    pub to_file: char,
    pub to_rank: u8,
    pub promotion: Option<PieceKind>,
}

/// An input line carried a square that names no file or rank on the
/// board, or a numeric field too large for the codec's integer width.
#[derive(Clone, Copy, PartialEq, Eq, Structural, Debug)]
pub enum ProtocolDecodeError {
    InvalidFile(char),
    InvalidRank(u8),
    NumberTooLarge,
}

/// A separator between grammar fields: the codec's whitespace (space and
/// tab), plus line ends. A whitespace run holding a line end never
/// parses, so counting line ends here only errs towards caution.
pub open spec fn is_sep(c: char) -> bool {
    c == ' ' || c == '\t' || c == '\r' || c == '\n'
}

/// The value of a digit character; ten for everything else.
pub open spec fn digit_val(c: char) -> int {
    match c {
        '0' => 0,
        '1' => 1,
        '2' => 2,
        '3' => 3,
        '4' => 4,
        '5' => 5,
        '6' => 6,
        '7' => 7,
        '8' => 8,
        '9' => 9,
        _ => 10,
    }
}

/// Whether a character is a decimal digit.
pub open spec fn is_digit(c: char) -> bool {
    digit_val(c) < 10
}

/// ASCII lowercase of a character; everything else unchanged. The codec
/// matches its keywords case-insensitively.
pub open spec fn lower_char(c: char) -> char {
    match c {
        'A' => 'a',
        'B' => 'b',
        'C' => 'c',
        'D' => 'd',
        'E' => 'e',
        'F' => 'f',
        'G' => 'g',
        'H' => 'h',
        'I' => 'i',
        'J' => 'j',
        'K' => 'k',
        'L' => 'l',
        'M' => 'm',
        'N' => 'n',
        'O' => 'o',
        'P' => 'p',
        'Q' => 'q',
        'R' => 'r',
        'S' => 's',
        'T' => 't',
        'U' => 'u',
        'V' => 'v',
        'W' => 'w',
        'X' => 'x',
        'Y' => 'y',
        'Z' => 'z',
        _ => c,
    }
}

/// The word `w` stands in `line` at position `i`, case-insensitively.
pub open spec fn word_at(line: Seq<char>, i: int, w: Seq<char>) -> bool {
    &&& 0 <= i
    &&& i + w.len() <= line.len()
    &&& forall|t: int| 0 <= t < w.len() ==> #[trigger] lower_char(line[i + t]) == w[t]
}

/// The keywords whose following number the codec reads into a `u8`:
/// `depth`, `mate` and `movestogo` of `go` lines, and `depth` and
/// `seldepth` of `info` lines.
pub open spec fn depth_kw() -> Seq<char> {
    seq!['d', 'e', 'p', 't', 'h']
}

pub open spec fn movestogo_kw() -> Seq<char> {
    seq!['m', 'o', 'v', 'e', 's', 't', 'o', 'g', 'o']
}

pub open spec fn mate_kw() -> Seq<char> {
    seq!['m', 'a', 't', 'e']
}

/// One of the u8-field keywords stands at `i`, ending at `j`. `seldepth`
/// needs no line of its own: it ends in `depth`.
pub open spec fn u8_keyword_at(line: Seq<char>, i: int, j: int) -> bool {
    ||| word_at(line, i, depth_kw()) && j == i + 5
    ||| word_at(line, i, movestogo_kw()) && j == i + 9
    ||| word_at(line, i, mate_kw()) && j == i + 4
}

/// From position `j`, across one nonempty separator run ending at `k`,
/// stands a number the codec could only read into a `u8` by
/// overflowing: three digits above 255, or four and more digits (which
/// the grammar in fact rejects; counting them errs towards caution).
pub open spec fn field_danger_from(line: Seq<char>, j: int, k: int) -> bool {
    &&& j < k
    &&& k + 3 <= line.len()
    &&& forall|t: int| j <= t < k ==> is_sep(#[trigger] line[t])
    &&& is_digit(line[k]) && is_digit(line[k + 1]) && is_digit(line[k + 2])
    &&& (digit_val(line[k]) * 100 + digit_val(line[k + 1]) * 10 + digit_val(line[k + 2]) > 255 || (
    k + 3 < line.len() && is_digit(line[k + 3])))
}

/// A u8-field keyword at `i..j` followed by an oversized number.
pub open spec fn oversized_field_at(line: Seq<char>, i: int, j: int, k: int) -> bool {
    u8_keyword_at(line, i, j) && field_danger_from(line, j, k)
}

/// No numeric field anywhere in the line overflows the codec's `u8`
/// reads; on such lines the codec parses without aborting.
pub open spec fn codec_safe(line: Seq<char>) -> bool {
    forall|i: int, j: int, k: int| !#[trigger] oversized_field_at(line, i, j, k)
}

/// Runtime check for [`is_sep`].
fn sep_c(c: char) -> (b: bool)
    ensures
        b == is_sep(c),
{
    c == ' ' || c == '\t' || c == '\r' || c == '\n'
}

/// Runtime check for [`lower_char`].
fn lower_c(c: char) -> (r: char)
    ensures
        r == lower_char(c),
{
    match c {
        'A' => 'a',
        'B' => 'b',
        'C' => 'c',
        'D' => 'd',
        'E' => 'e',
        'F' => 'f',
        'G' => 'g',
        'H' => 'h',
        'I' => 'i',
        'J' => 'j',
        'K' => 'k',
        'L' => 'l',
        'M' => 'm',
        'N' => 'n',
        'O' => 'o',
        'P' => 'p',
        'Q' => 'q',
        'R' => 'r',
        'S' => 's',
        'T' => 't',
        'U' => 'u',
        'V' => 'v',
        'W' => 'w',
        'X' => 'x',
        'Y' => 'y',
        'Z' => 'z',
        _ => c,
    }
}

/// Runtime computation of [`digit_val`].
fn digit_c(c: char) -> (d: u8)
    ensures
        d as int == digit_val(c),
{
    match c {
        '0' => 0u8,
        '1' => 1u8,
        '2' => 2u8,
        '3' => 3u8,
        '4' => 4u8,
        '5' => 5u8,
        '6' => 6u8,
        '7' => 7u8,
        '8' => 8u8,
        '9' => 9u8,
        _ => 10u8,
    }
}

/// Does `depth` stand at `i`, case-insensitively?
fn depth_at(v: &Vec<char>, i: usize) -> (b: bool)
    requires
        i <= v@.len(),
    ensures
        b == word_at(v@, i as int, depth_kw()),
{
    if v.len() - i < 5 {
        return false;
    }
    let b = lower_c(v[i]) == 'd' && lower_c(v[i + 1]) == 'e' && lower_c(v[i + 2]) == 'p'
        && lower_c(v[i + 3]) == 't' && lower_c(v[i + 4]) == 'h';
    proof {
        if !b && word_at(v@, i as int, depth_kw()) {
            assert(lower_char(v@[i as int + 0]) == depth_kw()[0]);
            assert(lower_char(v@[i as int + 1]) == depth_kw()[1]);
            assert(lower_char(v@[i as int + 2]) == depth_kw()[2]);
            assert(lower_char(v@[i as int + 3]) == depth_kw()[3]);
            assert(lower_char(v@[i as int + 4]) == depth_kw()[4]);
        }
    }
    b
}

/// Does `movestogo` stand at `i`, case-insensitively?
fn movestogo_at(v: &Vec<char>, i: usize) -> (b: bool)
    requires
        i <= v@.len(),
    ensures
        b == word_at(v@, i as int, movestogo_kw()),
{
    if v.len() - i < 9 {
        return false;
    }
    let b = lower_c(v[i]) == 'm' && lower_c(v[i + 1]) == 'o' && lower_c(v[i + 2]) == 'v'
        && lower_c(v[i + 3]) == 'e' && lower_c(v[i + 4]) == 's' && lower_c(v[i + 5]) == 't'
        && lower_c(v[i + 6]) == 'o' && lower_c(v[i + 7]) == 'g' && lower_c(v[i + 8]) == 'o';
    proof {
        if !b && word_at(v@, i as int, movestogo_kw()) {
            assert(lower_char(v@[i as int + 0]) == movestogo_kw()[0]);
            assert(lower_char(v@[i as int + 1]) == movestogo_kw()[1]);
            assert(lower_char(v@[i as int + 2]) == movestogo_kw()[2]);
            assert(lower_char(v@[i as int + 3]) == movestogo_kw()[3]);
            assert(lower_char(v@[i as int + 4]) == movestogo_kw()[4]);
            assert(lower_char(v@[i as int + 5]) == movestogo_kw()[5]);
            assert(lower_char(v@[i as int + 6]) == movestogo_kw()[6]);
            assert(lower_char(v@[i as int + 7]) == movestogo_kw()[7]);
            assert(lower_char(v@[i as int + 8]) == movestogo_kw()[8]);
        }
    }
    b
}

/// Does `mate` stand at `i`, case-insensitively?
fn mate_at(v: &Vec<char>, i: usize) -> (b: bool)
    requires
        i <= v@.len(),
    ensures
        b == word_at(v@, i as int, mate_kw()),
{
    if v.len() - i < 4 {
        return false;
    }
    let b = lower_c(v[i]) == 'm' && lower_c(v[i + 1]) == 'a' && lower_c(v[i + 2]) == 't'
        && lower_c(v[i + 3]) == 'e';
    proof {
        if !b && word_at(v@, i as int, mate_kw()) {
            assert(lower_char(v@[i as int + 0]) == mate_kw()[0]);
            assert(lower_char(v@[i as int + 1]) == mate_kw()[1]);
            assert(lower_char(v@[i as int + 2]) == mate_kw()[2]);
            assert(lower_char(v@[i as int + 3]) == mate_kw()[3]);
        }
    }
    b
}

/// Whether no oversized number follows position `j` (a matched keyword's
/// end) across the separating whitespace.
fn field_after_is_safe(v: &Vec<char>, j: usize) -> (b: bool)
    requires
        j <= v@.len(),
    ensures
        b == !(exists|k: int| #[trigger] field_danger_from(v@, j as int, k)),
{
    let n = v.len();
    let mut k: usize = j;
    while k < n && sep_c(v[k])
        invariant
            j <= k <= n,
            n == v@.len(),
            forall|t: int| j <= t < k ==> is_sep(#[trigger] v@[t]),
        decreases n - k,
    {
        k = k + 1;
    }
    // Here k == n or v[k] is no separator, and [j, k) are separators.
    if k == j || n - k < 3 {
        proof {
            assert forall|k2: int| !field_danger_from(v@, j as int, k2) by {
                if field_danger_from(v@, j as int, k2) {
                    if k2 < k {
                        assert(is_sep(v@[k2]));
                    } else if k2 > k {
                        assert(is_sep(v@[k as int]));
                    }
                }
            }
        }
        return true;
    }
    let d0 = digit_c(v[k]);
    let d1 = digit_c(v[k + 1]);
    let d2 = digit_c(v[k + 2]);
    let digits = d0 < 10 && d1 < 10 && d2 < 10;
    let value: u32 = (d0 as u32) * 100 + (d1 as u32) * 10 + (d2 as u32);
    let fourth: bool = if n - k >= 4 {
        digit_c(v[k + 3]) < 10
    } else {
        false
    };
    if digits && (value > 255 || fourth) {
        proof {
            assert(field_danger_from(v@, j as int, k as int));
        }
        return false;
    }
    proof {
        assert forall|k2: int| !field_danger_from(v@, j as int, k2) by {
            if field_danger_from(v@, j as int, k2) {
                if k2 < k {
                    assert(is_sep(v@[k2]));
                } else if k2 > k {
                    assert(is_sep(v@[k as int]));
                }
            }
        }
    }
    true
}

/// Runtime check for [`codec_safe`]: scan the line once per position.
pub fn line_is_codec_safe(line: &str) -> (b: bool)
    ensures
        b == codec_safe(line@),
{
    let n: usize = line.unicode_len();
    let mut v: Vec<char> = Vec::new();
    for idx in 0..n
        invariant
            n == line@.len(),
            v@.len() == idx,
            forall|s: int| 0 <= s < idx ==> v@[s] == line@[s],
    {
        v.push(line.get_char(idx));
    }
    proof {
        assert(v@ =~= line@);
    }
    let mut i: usize = 0;
    while i < n
        invariant
            n == v@.len(),
            v@ == line@,
            i <= n,
            forall|i2: int, j2: int, k2: int|
                i2 < i ==> !#[trigger] oversized_field_at(line@, i2, j2, k2),
        decreases n - i,
    {
        let has_depth = depth_at(&v, i);
        if has_depth && !field_after_is_safe(&v, i + 5) {
            proof {
                let k = choose|k: int| #[trigger] field_danger_from(v@, i as int + 5, k);
                assert(oversized_field_at(line@, i as int, i as int + 5, k));
            }
            return false;
        }
        let has_movestogo = movestogo_at(&v, i);
        if has_movestogo && !field_after_is_safe(&v, i + 9) {
            proof {
                let k = choose|k: int| #[trigger] field_danger_from(v@, i as int + 9, k);
                assert(oversized_field_at(line@, i as int, i as int + 9, k));
            }
            return false;
        }
        let has_mate = mate_at(&v, i);
        if has_mate && !field_after_is_safe(&v, i + 4) {
            proof {
                let k = choose|k: int| #[trigger] field_danger_from(v@, i as int + 4, k);
                assert(oversized_field_at(line@, i as int, i as int + 4, k));
            }
            return false;
        }
        proof {
            assert forall|j2: int, k2: int| !#[trigger] oversized_field_at(
                line@,
                i as int,
                j2,
                k2,
            ) by {
                if oversized_field_at(line@, i as int, j2, k2) {
                    assert(u8_keyword_at(line@, i as int, j2));
                    assert(!field_danger_from(line@, j2, k2));
                }
            }
        }
        i = i + 1;
    }
    proof {
        assert forall|i2: int, j2: int, k2: int| !#[trigger] oversized_field_at(
            line@,
            i2,
            j2,
            k2,
        ) by {
            if oversized_field_at(line@, i2, j2, k2) {
                assert(0 <= i2 && i2 + 4 <= line@.len());
            }
        }
    }
    true
}

/// A decoded control line, before its moves are checked: the small
/// closed set of command kinds the session reacts to.
#[derive(PartialEq, Eq, Debug)]
pub enum RawCommand {
    Handshake,
    NewGame,
    ReadyCheck,
    Go,
    Quit,
    Other,
    PositionUpdate { startpos: bool, moves: Vec<WireMove> },
}

/// A fully decoded command: a position update carries validated moves.
#[derive(PartialEq, Eq, Debug)]
pub enum Command {
    Handshake,
    NewGame,
    ReadyCheck,
    Go,
    Quit,
    Other,
    PositionUpdate { startpos: bool, moves: Vec<Mv> },
}

/// The library's name for each `vampirc_uci` promotion piece.
pub open spec fn uci_piece_kind_of(p: UciPiece) -> PieceKind {
    match p {
        UciPiece::Pawn => PieceKind::Pawn,
        UciPiece::Knight => PieceKind::Knight,
        UciPiece::Bishop => PieceKind::Bishop,
        UciPiece::Rook => PieceKind::Rook,
        UciPiece::Queen => PieceKind::Queen,
        UciPiece::King => PieceKind::King,
    }
}

/// Translate a `vampirc_uci` promotion piece into the library's piece
/// kind.
pub(crate) fn kind_of_uci_piece(p: UciPiece) -> (k: PieceKind)
    ensures
        k == uci_piece_kind_of(p),
{
    match p {
        UciPiece::Pawn => PieceKind::Pawn,
        UciPiece::Knight => PieceKind::Knight,
        UciPiece::Bishop => PieceKind::Bishop,
        UciPiece::Rook => PieceKind::Rook,
        UciPiece::Queen => PieceKind::Queen,
        UciPiece::King => PieceKind::King,
    }
}

/// What `vampirc_uci::parse_one` decodes a line to, folded onto the
/// library's command kinds.
pub uninterp spec fn parsed_command(line: Seq<char>) -> RawCommand;

/// Relies on `vampirc_uci::parse_one`: one input line is decoded into one
/// UCI message, a pure function of the line. Message kinds the session
/// does not handle fold into `Other`; the `go` controls and any `fen`
/// field are ignored, as this engine ignores them. The codec reads the
/// numbers of `depth`, `seldepth`, `mate` and `movestogo` fields into a
/// `u8` by unwrapping, and its grammar admits up to three digits, so it
/// aborts on values above 255; [`codec_safe`] is required to keep such
/// lines out (every one of those fields is a keyword followed by
/// whitespace and digits, which the predicate excludes).
#[verifier::external_body]
fn parse_uci_line(line: &str) -> (c: RawCommand)
    requires
        codec_safe(line@),
    ensures
        c == parsed_command(line@),
{
    match vampirc_uci::parse_one(line) {
        UciMessage::Uci => RawCommand::Handshake,
        UciMessage::UciNewGame => RawCommand::NewGame,
        UciMessage::IsReady => RawCommand::ReadyCheck,
        UciMessage::Go { .. } => RawCommand::Go,
        UciMessage::Quit => RawCommand::Quit,
        UciMessage::Position { startpos, fen: _, moves } => RawCommand::PositionUpdate {
            startpos,
            moves: moves.iter().map(|m| WireMove {
                from_file: m.from.file, from_rank: m.from.rank, to_file: m.to.file,
                to_rank: m.to.rank, promotion: m.promotion.map(kind_of_uci_piece),
            }).collect(),
        },
        _ => RawCommand::Other,
    }
}

/// A wire square names a real file and rank.
pub open spec fn wire_sq_ok(file: char, rank: u8) -> bool {
    file_index_of(file) is Some && rank_index_of(rank) is Some
}

/// Both squares of a wire move lie on the board.
pub open spec fn wire_ok(w: WireMove) -> bool {
    wire_sq_ok(w.from_file, w.from_rank) && wire_sq_ok(w.to_file, w.to_rank)
}

/// The move a wire move names; meaningful when [`wire_ok`] holds. The
/// promotion choice is carried through as reported.
pub open spec fn mv_of_wire(w: WireMove) -> Mv
    recommends
        wire_ok(w),
{
    Mv {
        from: Sq {
            file: file_index_of(w.from_file)->Some_0,
            rank: rank_index_of(w.from_rank)->Some_0,
        },
        to: Sq { file: file_index_of(w.to_file)->Some_0, rank: rank_index_of(w.to_rank)->Some_0 },
        promotion: w.promotion,
    }
}

/// Every wire move of the sequence names a board move.
pub open spec fn wire_moves_ok(ws: Seq<WireMove>) -> bool {
    forall|i: int| 0 <= i < ws.len() ==> wire_ok(#[trigger] ws[i])
}

/// The board moves a wire-move sequence names, in order.
pub open spec fn mvs_of_wire(ws: Seq<WireMove>) -> Seq<Mv> {
    ws.map_values(|w: WireMove| mv_of_wire(w))
}

/// The decode error a bad wire move produces: its first impossible
/// coordinate, checked origin square first, file before rank.
pub open spec fn wire_error(w: WireMove) -> ProtocolDecodeError
    recommends
        !wire_ok(w),
{
    if file_index_of(w.from_file) is None {
        ProtocolDecodeError::InvalidFile(w.from_file)
    } else if rank_index_of(w.from_rank) is None {
        ProtocolDecodeError::InvalidRank(w.from_rank)
    } else if file_index_of(w.to_file) is None {
        ProtocolDecodeError::InvalidFile(w.to_file)
    } else {
        ProtocolDecodeError::InvalidRank(w.to_rank)
    }
}

/// Decode one input line into a command, validating any carried moves.
/// A line with a numeric field too large for the codec is a recoverable
/// decode error, like a bad square: logged and skipped by the caller.
pub fn decode_command(line: &str) -> (r: Result<Command, ProtocolDecodeError>)
    ensures
        !codec_safe(line@) ==> r == Err::<Command, ProtocolDecodeError>(
            ProtocolDecodeError::NumberTooLarge,
        ),
        codec_safe(line@) ==> match parsed_command(line@) {
            RawCommand::Handshake => r == Ok::<Command, ProtocolDecodeError>(Command::Handshake),
            RawCommand::NewGame => r == Ok::<Command, ProtocolDecodeError>(Command::NewGame),
            RawCommand::ReadyCheck => r == Ok::<Command, ProtocolDecodeError>(
                Command::ReadyCheck,
            ),
            RawCommand::Go => r == Ok::<Command, ProtocolDecodeError>(Command::Go),
            RawCommand::Quit => r == Ok::<Command, ProtocolDecodeError>(Command::Quit),
            RawCommand::Other => r == Ok::<Command, ProtocolDecodeError>(Command::Other),
            RawCommand::PositionUpdate { startpos, moves } => if wire_moves_ok(moves@) {
                r matches Ok(c) && c matches Command::PositionUpdate { startpos: sp, moves: ms }
                    && sp == startpos && ms@ == mvs_of_wire(moves@)
            } else {
                // The error is the first offending wire move's.
                r matches Err(e) && exists|i: int|
                    {
                        &&& 0 <= i < moves@.len()
                        &&& !wire_ok(#[trigger] moves@[i])
                        &&& e == wire_error(moves@[i])
                        &&& forall|k: int| 0 <= k < i ==> wire_ok(#[trigger] moves@[k])
                    }
            },
        },
{
    if !line_is_codec_safe(line) {
        return Err(ProtocolDecodeError::NumberTooLarge);
    }
    let raw = parse_uci_line(line);
    match raw {
        RawCommand::Handshake => Ok(Command::Handshake),
        RawCommand::NewGame => Ok(Command::NewGame),
        RawCommand::ReadyCheck => Ok(Command::ReadyCheck),
        RawCommand::Go => Ok(Command::Go),
        RawCommand::Quit => Ok(Command::Quit),
        RawCommand::Other => Ok(Command::Other),
        RawCommand::PositionUpdate { startpos, moves } => {
            let ghost ws: Seq<WireMove> = moves@;
            let mut out: Vec<Mv> = Vec::new();
            let n: usize = moves.len();
            for i in 0..n
                invariant
                    codec_safe(line@),
                    parsed_command(line@) == (RawCommand::PositionUpdate { startpos, moves }),
                    n == moves@.len(),
                    ws == moves@,
                    out@.len() == i,
                    forall|k: int|
                        0 <= k < i ==> wire_ok(#[trigger] ws[k]) && out@[k] == mv_of_wire(ws[k]),
            {
                match crate::cozy_helper::cozy_move_of_uci_move(&moves[i]) {
                    Ok(m) => out.push(m),
                    Err(e) => {
                        proof {
                            assert(!wire_ok(moves@[i as int]));
                            assert(e == wire_error(moves@[i as int]));
                            assert(!wire_moves_ok(moves@));
                            assert(forall|k: int|
                                0 <= k < i as int ==> wire_ok(#[trigger] moves@[k]));
                        }
                        return Err(e);
                    },
                }
            }
            proof {
                assert(out@ =~= mvs_of_wire(ws));
            }
            Ok(Command::PositionUpdate { startpos, moves: out })
        },
    }
}

/// Which agent drives the session; chosen once at startup and fixed for
/// the session lifetime.
#[derive(Clone, Copy, PartialEq, Eq, Structural, Debug)]
pub enum Mode {
    MonteCarloAggressive,
    Random,
}

/// The startup configuration line named no known engine mode; this is a
/// fatal startup error.
#[derive(Clone, Copy, PartialEq, Eq, Structural, Debug)]
pub struct UnknownModeError;

/// Relies on `str`'s `PartialEq`: two string slices are equal exactly
/// when their character contents are equal.
#[verifier::external_body]
fn str_eq(a: &str, b: &str) -> (r: bool)
    ensures
        r <==> a@ == b@,
{
    a == b
}

/// The mode a startup configuration line selects, if any.
pub open spec fn mode_of_line(line: Seq<char>) -> Result<Mode, UnknownModeError> {
    if line == "monteattack"@ {
        Ok(Mode::MonteCarloAggressive)
    } else if line == "random"@ {
        Ok(Mode::Random)
    } else {
        Err(UnknownModeError)
    }
}

/// Select the session mode from the startup configuration line; an
/// unrecognized value is rejected.
pub fn parse_mode(line: &str) -> (r: Result<Mode, UnknownModeError>)
    ensures
        r == mode_of_line(line@),
{
    if str_eq(line, "monteattack") {
        Ok(Mode::MonteCarloAggressive)
    } else if str_eq(line, "random") {
        Ok(Mode::Random)
    } else {
        Err(UnknownModeError)
    }
}

/// The fixed protocol lines this engine emits.
#[derive(Clone, Copy, PartialEq, Eq, Structural, Debug)]
pub enum PlainMsg {
    Greeting,
    HandshakeOk,
    ReadyOk,
}

/// Relies on `vampirc_uci`'s `UciMessage` serialization: `Uci`, `UciOk`
/// and `ReadyOk` print as the fixed words `uci`, `uciok` and `readyok`.
#[verifier::external_body]
pub(crate) fn render_plain(k: PlainMsg) -> (s: String)
    ensures
        s@ == match k {
            PlainMsg::Greeting => "uci"@,
            PlainMsg::HandshakeOk => "uciok"@,
            PlainMsg::ReadyOk => "readyok"@,
        },
{
    let m = match k {
        PlainMsg::Greeting => UciMessage::Uci,
        PlainMsg::HandshakeOk => UciMessage::UciOk,
        PlainMsg::ReadyOk => UciMessage::ReadyOk,
    };
    format!("{}", m)
}

/// Relies on `vampirc_uci`'s `UciMessage::Id` serialization: with a name
/// present it prints `id name ` followed by the name, and nothing else
/// (the author field is only printed when no name is given).
#[verifier::external_body]
pub(crate) fn render_id(name: &str, author: &str) -> (s: String)
    ensures
        s@ == "id name "@ + name@,
{
    let m = UciMessage::Id { name: Some(name.to_owned()), author: Some(author.to_owned()) };
    format!("{}", m)
}

/// The single digit character of a rank number between one and eight.
pub open spec fn digit_char(r: u8) -> char
    recommends
        1 <= r <= 8,
{
    match r {
        1u8 => '1',
        2u8 => '2',
        3u8 => '3',
        4u8 => '4',
        5u8 => '5',
        6u8 => '6',
        7u8 => '7',
        _ => '8',
    }
}

/// The characters a wire move prints as: origin square, destination
/// square, and a trailing `q` when promoting to queen.
pub open spec fn wire_chars(w: WireMove, promote_queen: bool) -> Seq<char> {
    seq![w.from_file, digit_char(w.from_rank), w.to_file, digit_char(w.to_rank)] + if promote_queen {
        seq!['q']
    } else {
        Seq::<char>::empty()
    }
}

/// Relies on `vampirc_uci`'s `UciMessage::BestMove` serialization:
/// `bestmove ` followed by the move, each square as its file letter and
/// single rank digit, and a trailing `q` when promoting to queen.
#[verifier::external_body]
pub(crate) fn render_best_move(w: &WireMove, promote_queen: bool) -> (s: String)
    requires
        1 <= w.from_rank <= 8,
        1 <= w.to_rank <= 8,
    ensures
        s@ == "bestmove "@ + wire_chars(*w, promote_queen),
{
    let best_move = UciMove {
        from: UciSquare { file: w.from_file, rank: w.from_rank },
        to: UciSquare { file: w.to_file, rank: w.to_rank },
        promotion: if promote_queen {
            Some(UciPiece::Queen)
        } else {
            None
        },
    };
    format!("{}", UciMessage::BestMove { best_move, ponder: None })
}

/// The wire form of a board move as this engine emits it: promotion,
/// when present, is reported as promote-to-queen.
pub open spec fn wire_of_mv(m: Mv) -> WireMove {
    WireMove {
        from_file: file_letter_of(m.from.file),
        from_rank: (m.from.rank + 1) as u8,
        to_file: file_letter_of(m.to.file),
        to_rank: (m.to.rank + 1) as u8,
        promotion: if m.promotion is Some {
            Some(PieceKind::Queen)
        } else {
            None
        },
    }
}

/// Turn a board move into its wire form. The flag says whether the
/// emitted move is to carry the queen-promotion marker, the only
/// promotion this design reports; it is handed back alongside the wire
/// move.
pub fn uci_move_of_cozy_move(m: &Mv, is_promotion: bool) -> (r: (WireMove, bool))
    requires
        m.wf(),
    ensures
        r.0.from_file == file_letter_of(m.from.file),
        r.0.from_rank == m.from.rank + 1,
        r.0.to_file == file_letter_of(m.to.file),
        r.0.to_rank == m.to.rank + 1,
        r.0.promotion == (if is_promotion {
            Some(PieceKind::Queen)
        } else {
            None::<PieceKind>
        }),
        r.1 == is_promotion,
        is_promotion == (m.promotion is Some) ==> r.0 == wire_of_mv(*m),
{
    let (from_file, from_rank) = crate::cozy_helper::uci_square_of_cozy_square(m.from);
    let (to_file, to_rank) = crate::cozy_helper::uci_square_of_cozy_square(m.to);
    let promotion = if is_promotion {
        Some(PieceKind::Queen)
    } else {
        None
    };
    (WireMove { from_file, from_rank, to_file, to_rank, promotion }, is_promotion)
}

/// The full best-move announcement line of a move.
pub open spec fn best_move_line(m: Mv) -> Seq<char> {
    "bestmove "@ + wire_chars(wire_of_mv(m), m.promotion is Some)
}

/// Render the best-move announcement for a move: promotion, when
/// present, is always reported as promote-to-queen.
pub fn encode_best_move(m: &Mv) -> (s: String)
    requires
        m.wf(),
    ensures
        s@ == best_move_line(*m),
{
    let is_promotion = m.promotion.is_some();
    let (w, promote_queen) = uci_move_of_cozy_move(m, is_promotion);
    render_best_move(&w, promote_queen)
}

} // verus!

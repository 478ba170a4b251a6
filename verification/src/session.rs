//! The session state machine.
//!
//! It holds the one live board of the game, decodes nothing itself —
//! commands arrive already decoded — and drives the configured agent:
//! position updates apply the opponent's reported move, a go request asks
//! the agent for a move, applies it and announces it, and lifecycle
//! commands answer or reset without touching the agent.

use vstd::prelude::*;

use crate::cozy_helper::{
    apply_trusted, board_after, is_start_board, legal_of, starting_board, try_apply,
};
use crate::engine::Engine;
use crate::moves::Mv;
use crate::uci::{best_move_line, encode_best_move, render_id, render_plain, Command, PlainMsg};
use cozy_chess::Board;

verus! {

/// The lifecycle of a session.
#[derive(Clone, Copy, PartialEq, Eq, Structural, Debug)]
pub enum SessionState {
    AwaitingHandshake,
    Ready,
    InGame,
    Terminated,
}

/// A condition the caller should log. Neither is part of the output
/// stream, and neither ends the session: an illegal opponent report is
/// skipped, and a position without legal moves is a valid terminal
/// outcome, not an error.
#[derive(Clone, Copy, PartialEq, Eq, Structural, Debug)]
pub enum SessionNote {
    IllegalReportedMove,
    NoMoveAvailable,
}

/// One session: the lifecycle state, the held board, and the agent that
/// answers go requests. The mode — which agent drives the session — is
/// fixed at construction for the session lifetime.
pub struct Session<E: Engine> {
    pub state: SessionState,
    pub board: Board,
    pub engine: E,
}

impl<E: Engine> Session<E> {
    /// The held agent's configuration is valid.
    pub open spec fn wf(self) -> bool {
        self.engine.inv()
    }

    /// A fresh session: awaiting the handshake, holding the standard
    /// starting position, driven by `engine`.
    pub fn new(engine: E) -> (s: Session<E>)
        requires
            engine.inv(),
        ensures
            s.wf(),
            s.state == SessionState::AwaitingHandshake,
            is_start_board(s.board),
            s.engine == engine,
    {
        Session { state: SessionState::AwaitingHandshake, board: starting_board(), engine }
    }

    /// The line the engine prints once at startup to announce itself.
    pub fn greeting() -> (s: String)
        ensures
            s@ == "uci"@,
    {
        render_plain(PlainMsg::Greeting)
    }

    /// Whether the session has ended; after that no command has any
    /// effect, and the outer loop stops reading.
    pub fn is_terminated(&self) -> (b: bool)
        ensures
            b == (self.state == SessionState::Terminated),
    {
        self.state == SessionState::Terminated
    }

    /// Process one decoded command: update the lifecycle state and the
    /// held board, and return the lines to print, in order, together
    /// with a condition to log, if one arose.
    ///
    /// A position update applies only the trailing reported move — the
    /// held board is assumed to reflect all earlier ones — and validates
    /// it rather than trusting the opponent: an illegal report leaves the
    /// board unchanged and the session alive, and is reported for the
    /// log. A go request with no legal move emits nothing, reports the
    /// no-move condition, and the session continues.
    pub fn step(&mut self, cmd: Command) -> (r: (Vec<String>, Option<SessionNote>))
        requires
            old(self).wf(),
        ensures
            final(self).wf(),
            final(self).engine == old(self).engine,
            // Once terminated, nothing is processed any more.
            old(self).state == SessionState::Terminated ==> {
                &&& *final(self) == *old(self)
                &&& r.0@.len() == 0
                &&& r.1 is None
            },
            // Quit, from any live state, terminates the session silently.
            old(self).state != SessionState::Terminated && cmd == Command::Quit ==> {
                &&& final(self).state == SessionState::Terminated
                &&& final(self).board == old(self).board
                &&& r.0@.len() == 0
                &&& r.1 is None
            },
            // The handshake is answered with the identity line and the
            // acknowledgment, and readies the session.
            old(self).state != SessionState::Terminated && cmd == Command::Handshake ==> {
                &&& final(self).state == SessionState::Ready
                &&& final(self).board == old(self).board
                &&& r.0@.len() == 2
                &&& r.0@[0]@ == "id name "@ + "Coolbot"@
                &&& r.0@[1]@ == "uciok"@
                &&& r.1 is None
            },
            // A ready check is acknowledged with no other effect.
            old(self).state != SessionState::Terminated && cmd == Command::ReadyCheck ==> {
                &&& final(self).state == old(self).state
                &&& final(self).board == old(self).board
                &&& r.0@.len() == 1
                &&& r.0@[0]@ == "readyok"@
                &&& r.1 is None
            },
            // A new game resets the board to the starting position,
            // whatever came before; before the handshake it is ignored.
            old(self).state != SessionState::Terminated && cmd == Command::NewGame ==> {
                &&& final(self).state == old(self).state
                &&& r.0@.len() == 0
                &&& r.1 is None
                &&& old(self).state == SessionState::Ready || old(self).state
                    == SessionState::InGame ==> is_start_board(final(self).board)
                &&& old(self).state == SessionState::AwaitingHandshake ==> final(self).board
                    == old(self).board
            },
            // A position update applies the trailing reported move to the
            // held board when that move is legal there, and leaves the
            // board unchanged — reporting the illegal move for the log —
            // otherwise.
            cmd matches Command::PositionUpdate {
                startpos: _,
                moves,
            } ==> old(self).state != SessionState::Terminated ==> {
                &&& r.0@.len() == 0
                &&& old(self).state == SessionState::AwaitingHandshake ==> *final(self)
                    == *old(self) && r.1 is None
                &&& old(self).state == SessionState::Ready || old(self).state
                    == SessionState::InGame ==> {
                    &&& final(self).state == SessionState::InGame
                    &&& moves@.len() == 0 ==> final(self).board == old(self).board && r.1 is None
                    &&& moves@.len() > 0 && moves@.last().wf() && legal_of(
                        old(self).board,
                    ).contains(moves@.last()) ==> final(self).board == board_after(
                        old(self).board,
                        moves@.last(),
                    ) && r.1 is None
                    &&& moves@.len() > 0 && !(moves@.last().wf() && legal_of(
                        old(self).board,
                    ).contains(moves@.last())) ==> final(self).board == old(self).board && r.1
                        == Some(SessionNote::IllegalReportedMove)
                }
            },
            // A go request invokes the agent on the held board; the move
            // it returns is applied and announced. With no legal move,
            // nothing is emitted, the no-move condition is reported for
            // the log, and the session continues.
            old(self).state != SessionState::Terminated && cmd == Command::Go ==> {
                &&& old(self).state == SessionState::AwaitingHandshake ==> {
                    &&& *final(self) == *old(self)
                    &&& r.0@.len() == 0
                    &&& r.1 is None
                }
                &&& old(self).state == SessionState::Ready || old(self).state
                    == SessionState::InGame ==> {
                    &&& final(self).state == SessionState::InGame
                    &&& legal_of(old(self).board).is_empty() ==> r.0@.len() == 0
                        && final(self).board == old(self).board && r.1 == Some(
                        SessionNote::NoMoveAvailable,
                    )
                    &&& !legal_of(old(self).board).is_empty() ==> r.0@.len() == 1 && r.1 is None
                        && exists|m: Mv|
                        {
                            &&& #[trigger] legal_of(old(self).board).contains(m)
                            &&& m.wf()
                            &&& final(self).board == board_after(old(self).board, m)
                            &&& r.0@[0]@ == best_move_line(m)
                        }
                }
            },
            // Any other command is ignored without aborting the session.
            old(self).state != SessionState::Terminated && cmd == Command::Other ==> {
                &&& *final(self) == *old(self)
                &&& r.0@.len() == 0
                &&& r.1 is None
            },
    {
        if self.state == SessionState::Terminated {
            return (Vec::new(), None);
        }
        match cmd {
            Command::Quit => {
                self.state = SessionState::Terminated;
                (Vec::new(), None)
            },
            Command::Handshake => {
                self.state = SessionState::Ready;
                let mut out: Vec<String> = Vec::new();
                out.push(render_id("Coolbot", "Snazzy"));
                out.push(render_plain(PlainMsg::HandshakeOk));
                (out, None)
            },
            Command::ReadyCheck => {
                let mut out: Vec<String> = Vec::new();
                out.push(render_plain(PlainMsg::ReadyOk));
                (out, None)
            },
            Command::NewGame => {
                if self.state == SessionState::Ready || self.state == SessionState::InGame {
                    self.board = starting_board();
                }
                (Vec::new(), None)
            },
            Command::PositionUpdate { startpos: _, moves } => {
                if self.state == SessionState::Ready || self.state == SessionState::InGame {
                    self.state = SessionState::InGame;
                    let mut note: Option<SessionNote> = None;
                    if moves.len() > 0 {
                        let last: Mv = moves[moves.len() - 1];
                        // The move is opponent-reported: validate it
                        // instead of trusting it; an illegal report is
                        // skipped and noted, not a crash.
                        if last.is_wf() {
                            match try_apply(&mut self.board, last) {
                                Ok(()) => {},
                                Err(_) => {
                                    note = Some(SessionNote::IllegalReportedMove);
                                },
                            }
                        } else {
                            note = Some(SessionNote::IllegalReportedMove);
                        }
                    }
                    (Vec::new(), note)
                } else {
                    (Vec::new(), None)
                }
            },
            Command::Go => {
                if self.state == SessionState::Ready || self.state == SessionState::InGame {
                    self.state = SessionState::InGame;
                    match self.engine.play(&self.board) {
                        Some(m) => {
                            apply_trusted(&mut self.board, m);
                            let line = encode_best_move(&m);
                            let mut out: Vec<String> = Vec::new();
                            out.push(line);
                            proof {
                                assert(legal_of(old(self).board).contains(m));
                            }
                            (out, None)
                        },
                        None => (Vec::new(), Some(SessionNote::NoMoveAvailable)),
                    }
                } else {
                    (Vec::new(), None)
                }
            },
            Command::Other => (Vec::new(), None),
        }
    }
}

} // verus!

//! Decision core of a UCI-driven chess engine.
//!
//! The rules of chess themselves come from the `cozy_chess` crate and the
//! wire protocol from `vampirc_uci`; both are reached only through the
//! trusted adapters in [`cozy_helper`] and [`uci`]. Everything else — move
//! scoring, the randomized game-tree search, the engine abstraction and the
//! session state machine — is verified.

pub mod cozy_helper;
pub mod engine;
pub mod monte_carlo_aggressive_engine;
pub mod moves;
pub mod random;
pub mod random_engine;
pub mod score;
pub mod session;
pub mod uci;

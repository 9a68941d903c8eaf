//! Text interface layer for a two-player Reversi match: command and
//! coordinate interpretation, board rendering, and status messages.
//!
//! The game rules themselves (legal-move computation, disk flipping, score
//! counting) belong to an external turn authority; this crate consumes a
//! snapshot of that authority's answers (see [`turn::Turn`]) and never
//! mutates game state.

pub mod game;
pub mod parse;
pub mod strbuf;
pub mod render;
pub mod text;
pub mod turn;

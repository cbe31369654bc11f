//! Best-first ordering of candidate chess moves at a search node.
//!
//! Each move is given an integer priority (captures first, ranked by the
//! value of the captured piece) and the moves are handed out by
//! descending priority.

pub mod board;
pub mod scoring;
pub mod ordering;

pub use board::{Move, Occupant, PieceKind, Position, Side};
pub use ordering::{MoveOrdering, ScoredMove};
pub use scoring::move_score;

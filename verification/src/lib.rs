//! A chess rules engine: given a board position and a proposed move, it
//! decides whether the move is legal under the standard movement rules
//! (including the pawn double step, en passant and check avoidance) and, for a
//! legal move, produces the resulting position.

pub mod piece;
pub mod board;
pub mod geometry;
pub mod attack;
pub mod execute;
pub mod rules;
pub mod parse;
pub mod laws;

pub use piece::{Color, PieceType, Piece};
pub use board::{Board, initial_board};
pub use attack::{is_attacked, is_in_check};
pub use rules::{is_legal, make_move};
pub use execute::apply;
pub use parse::parse_move;

//! The six piece kinds, the two colors, and the piece value itself: an
//! immutable identity (kind and color) together with the per-kind flags that
//! the move rules read and the move executor updates.

use vstd::prelude::*;

verus! {

#[derive(Clone, Copy, Debug, PartialEq, Eq, Structural)]
pub enum Color {
    White,
    Black,
}

#[derive(Clone, Copy, Debug, PartialEq, Eq, Structural)]
pub enum PieceType {
    Pawn,
    Rook,
    Knight,
    Bishop,
    Queen,
    King,
}

/// The other side's color.
pub open spec fn opposite(c: Color) -> Color {
    match c {
        Color::White => Color::Black,
        Color::Black => Color::White,
    }
}

impl Color {
    /// The other side's color.
    pub fn flip(self) -> (r: Color)
        ensures
            r == opposite(self),
    {
        match self {
            Color::White => Color::Black,
            Color::Black => Color::White,
        }
    }
}

/// A piece on the board. The flags are meaningful only for some kinds:
/// `double_step_available` and `is_en_passant_target` for pawns,
/// `has_castling_rights` for rooks and kings. The others ignore them.
#[derive(Clone, Copy, Debug, PartialEq, Eq, Structural)]
pub struct Piece {
    pub color: Color,
    pub kind: PieceType,
    /// True only before the pawn's first move.
    pub double_step_available: bool,
    /// True only immediately after the pawn advanced two squares.
    pub is_en_passant_target: bool,
    /// True until the rook or king first moves.
    pub has_castling_rights: bool,
}

/// A piece as it stands before its first move.
pub open spec fn fresh_piece(color: Color, kind: PieceType) -> Piece {
    Piece {
        color,
        kind,
        double_step_available: kind is Pawn,
        is_en_passant_target: false,
        has_castling_rights: kind is Rook || kind is King,
    }
}

impl Piece {
    /// A piece that has not moved yet: a pawn may still double-step, a rook or
    /// king still carries its castling rights.
    pub fn new(color: Color, kind: PieceType) -> (p: Piece)
        ensures
            p == fresh_piece(color, kind),
    {
        let double_step_available = match kind {
            PieceType::Pawn => true,
            _ => false,
        };
        let has_castling_rights = match kind {
            PieceType::Rook | PieceType::King => true,
            _ => false,
        };
        Piece { color, kind, double_step_available, is_en_passant_target: false, has_castling_rights }
    }

    /// Builder that assigns a side to the piece, used when laying the board out.
    pub fn color(self, color: Color) -> (p: Self)
        ensures
            p == (Piece { color, ..self }),
    {
        Piece { color, ..self }
    }
}

} // verus!

//! General properties of the engine, stated over the specification functions
//! that the executable functions' contracts use, and proved once and for all
//! boards and squares.

use vstd::prelude::*;

use crate::board::{at, board_wf, on_board};
use crate::execute::spec_apply;
use crate::geometry::{forward, iabs, path_clear};
use crate::piece::{opposite, Color, Piece, PieceType};
use crate::rules::{geometry_ok, spec_is_legal};
use crate::attack::in_check;

verus! {

/// No null move: a move from a square to itself is never legal.
pub proof fn lemma_no_null_move(b: Seq<Option<Piece>>, f: int, r: int)
    ensures
        !spec_is_legal(b, f, r, f, r),
{
}

/// Path clearance: a legal rook, bishop or queen move passes only over empty
/// squares — every square strictly between origin and destination is empty
/// before the move.
pub proof fn lemma_sliding_path_clear(b: Seq<Option<Piece>>, f0: int, r0: int, f1: int, r1: int)
    requires
        spec_is_legal(b, f0, r0, f1, r1),
        at(b, f0, r0) matches Some(p) && (p.kind is Rook || p.kind is Bishop || p.kind is Queen),
    ensures
        path_clear(b, f0, r0, f1, r1),
{
}

/// Check safety: a move that would leave the mover's own king attacked is
/// illegal, whatever its geometry.
pub proof fn lemma_check_safety(b: Seq<Option<Piece>>, f0: int, r0: int, f1: int, r1: int)
    requires
        at(b, f0, r0) matches Some(p) && in_check(spec_apply(b, f0, r0, f1, r1), p.color),
    ensures
        !spec_is_legal(b, f0, r0, f1, r1),
{
}

/// Double step: a pawn that may still double-step, with the two squares ahead
/// of it empty, may advance two squares whenever that does not leave its own
/// king in check.
pub proof fn lemma_double_step_legal(b: Seq<Option<Piece>>, c: Color, f: int, r: int)
    requires
        on_board(f, r),
        on_board(f, r + 2 * forward(c)),
        at(b, f, r) matches Some(p) && p.kind is Pawn && p.color == c && p.double_step_available,
        at(b, f, r + forward(c)) is None,
        at(b, f, r + 2 * forward(c)) is None,
        !in_check(spec_apply(b, f, r, f, r + 2 * forward(c)), c),
    ensures
        spec_is_legal(b, f, r, f, r + 2 * forward(c)),
{
}

/// Double step: a pawn whose double-step right is spent cannot advance two
/// squares.
pub proof fn lemma_double_step_needs_flag(b: Seq<Option<Piece>>, c: Color, f: int, r: int)
    requires
        at(b, f, r) matches Some(p) && p.kind is Pawn && p.color == c && !p.double_step_available,
    ensures
        !spec_is_legal(b, f, r, f, r + 2 * forward(c)),
{
}

/// Any pawn move spends the pawn's double-step right on the resulting board.
pub proof fn lemma_pawn_move_clears_double_step(
    b: Seq<Option<Piece>>,
    f0: int,
    r0: int,
    f1: int,
    r1: int,
)
    requires
        board_wf(b),
        on_board(f0, r0),
        on_board(f1, r1),
        !(f0 == f1 && r0 == r1),
        at(b, f0, r0) matches Some(p) && p.kind is Pawn,
    ensures
        at(spec_apply(b, f0, r0, f1, r1), f1, r1) matches Some(q) && q.kind is Pawn
            && !q.double_step_available,
{
}

/// En passant: a pawn standing beside an enemy pawn that is marked as en
/// passant target may capture it by stepping diagonally onto the empty square
/// behind it (check safety permitting), and executing that capture removes the
/// enemy pawn from the square it actually stands on — not from the capture's
/// destination.
pub proof fn lemma_en_passant(b: Seq<Option<Piece>>, c: Color, f0: int, r0: int, f1: int)
    requires
        board_wf(b),
        on_board(f0, r0),
        on_board(f1, r0 + forward(c)),
        iabs(f1 - f0) == 1,
        at(b, f0, r0) matches Some(p) && p.kind is Pawn && p.color == c,
        at(b, f1, r0 + forward(c)) is None,
        at(b, f1, r0) matches Some(q) && q.kind is Pawn && q.color == opposite(c)
            && q.is_en_passant_target,
        !in_check(spec_apply(b, f0, r0, f1, r0 + forward(c)), c),
    ensures
        spec_is_legal(b, f0, r0, f1, r0 + forward(c)),
        at(spec_apply(b, f0, r0, f1, r0 + forward(c)), f1, r0) is None,
        at(spec_apply(b, f0, r0, f1, r0 + forward(c)), f1, r0 + forward(c)) matches Some(m)
            && m.kind is Pawn && m.color == c,
{
}

/// Knight moves ignore intervening pieces: the knight rule reads only the
/// origin and the destination square, so boards that agree on those two
/// squares allow exactly the same knight geometry, whatever stands on the
/// squares around.
pub proof fn lemma_knight_ignores_surroundings(
    b1: Seq<Option<Piece>>,
    b2: Seq<Option<Piece>>,
    p: Piece,
    f0: int,
    r0: int,
    f1: int,
    r1: int,
)
    requires
        p.kind is Knight,
        at(b1, f1, r1) == at(b2, f1, r1),
    ensures
        geometry_ok(b1, p, f0, r0, f1, r1) == geometry_ok(b2, p, f0, r0, f1, r1),
{
}

/// Round trip: after a legal move and its geometric inverse (when that inverse
/// is itself legal), the moved piece stands on its original square again with
/// kind and color unchanged.
pub proof fn lemma_round_trip(b: Seq<Option<Piece>>, f0: int, r0: int, f1: int, r1: int)
    requires
        board_wf(b),
        spec_is_legal(b, f0, r0, f1, r1),
        spec_is_legal(spec_apply(b, f0, r0, f1, r1), f1, r1, f0, r0),
    ensures
        at(b, f0, r0) matches Some(p) && at(
            spec_apply(spec_apply(b, f0, r0, f1, r1), f1, r1, f0, r0),
            f0,
            r0,
        ) matches Some(q) && q.kind == p.kind && q.color == p.color,
{
}

} // verus!

//! The move executor: applies a validated move to the board. It relocates the
//! piece, clears the origin square, removes a pawn captured en passant from
//! its actual square, and updates the per-piece flags — a pawn's double-step
//! right goes away on its first move, a pawn that just advanced two squares
//! becomes an en passant target until the next move is executed, and a rook or
//! king loses its castling rights on its first move.

use vstd::prelude::*;

use crate::board::{at, board_wf, on_board, square_ix, Board};
use crate::geometry::iabs;
use crate::piece::{Piece, PieceType};

verus! {

/// `p` with its en passant mark withdrawn.
pub open spec fn ep_flag_cleared(p: Piece) -> Piece {
    Piece { is_en_passant_target: false, ..p }
}

/// The board with every piece's en passant mark withdrawn: only the
/// immediately preceding double step leaves a capturable pawn.
pub open spec fn clear_ep_targets(b: Seq<Option<Piece>>) -> Seq<Option<Piece>> {
    Seq::new(
        b.len(),
        |i: int|
            match b[i] {
                Some(p) => Some(ep_flag_cleared(p)),
                None => None,
            },
    )
}

/// The flags of the moving piece after a move from rank `r0` to rank `r1`: a
/// pawn loses its double step (and becomes an en passant target exactly when
/// the move was a double step); a rook or king loses its castling rights.
pub open spec fn moved_piece(p: Piece, r0: int, r1: int) -> Piece {
    match p.kind {
        PieceType::Pawn => if iabs(r1 - r0) == 2 {
            Piece { double_step_available: false, is_en_passant_target: true, ..p }
        } else {
            Piece { double_step_available: false, is_en_passant_target: false, ..p }
        },
        PieceType::Rook => Piece { has_castling_rights: false, ..p },
        PieceType::King => Piece { has_castling_rights: false, ..p },
        _ => p,
    }
}

/// Whether the move is an en passant capture: a pawn leaves its file yet lands
/// on an empty square. The captured pawn then stands beside the destination,
/// on the origin's rank.
pub open spec fn is_ep_capture(b: Seq<Option<Piece>>, f0: int, r0: int, f1: int, r1: int) -> bool {
    &&& at(b, f0, r0) matches Some(p) && p.kind is Pawn
    &&& f1 != f0
    &&& at(b, f1, r1) is None
}

/// The board after the move from `(f0, r0)` to `(f1, r1)`: every en passant
/// mark is withdrawn, a pawn captured en passant is removed from `(f1, r0)`,
/// the origin is cleared and the moved piece stands on the destination with
/// its flags updated. A move from an empty square changes nothing.
pub open spec fn spec_apply(
    b: Seq<Option<Piece>>,
    f0: int,
    r0: int,
    f1: int,
    r1: int,
) -> Seq<Option<Piece>>
    recommends
        board_wf(b),
        on_board(f0, r0),
        on_board(f1, r1),
{
    match at(b, f0, r0) {
        None => b,
        Some(p) => {
            let cleared = clear_ep_targets(b);
            let without_captured = if is_ep_capture(b, f0, r0, f1, r1) {
                cleared.update(square_ix(f1, r0), None)
            } else {
                cleared
            };
            without_captured.update(square_ix(f0, r0), None).update(
                square_ix(f1, r1),
                Some(moved_piece(ep_flag_cleared(p), r0, r1)),
            )
        },
    }
}

/// Withdraws every piece's en passant mark.
fn clear_ep_flags(board: &mut Board)
    requires
        old(board).wf(),
    ensures
        final(board).wf(),
        final(board)@ == clear_ep_targets(old(board)@),
{
    let mut i: usize = 0;
    while i < 64
        invariant
            board.wf(),
            old(board).wf(),
            i <= 64,
            forall|j: int| 0 <= j < i ==> board@[j] == clear_ep_targets(old(board)@)[j],
            forall|j: int| i <= j < 64 ==> board@[j] == old(board)@[j],
        decreases 64 - i,
    {
        match board.get_linear(i) {
            Some(p) => {
                board.set_linear(
                    i,
                    Some(
                        Piece {
                            is_en_passant_target: false,
                            ..p
                        },
                    ),
                );
            },
            None => {},
        }
        i = i + 1;
    }
    proof {
        assert(board@ =~= clear_ep_targets(old(board)@));
    }
}

/// The moving piece with its flags updated for a move from rank `r0` to `r1`.
fn update_flags(p: Piece, r0: usize, r1: usize) -> (q: Piece)
    requires
        r0 < 8,
        r1 < 8,
    ensures
        q == moved_piece(p, r0 as int, r1 as int),
{
    match p.kind {
        PieceType::Pawn => {
            let two = if r1 >= r0 {
                r1 - r0 == 2
            } else {
                r0 - r1 == 2
            };
            Piece { double_step_available: false, is_en_passant_target: two, ..p }
        },
        PieceType::Rook => Piece { has_castling_rights: false, ..p },
        PieceType::King => Piece { has_castling_rights: false, ..p },
        _ => p,
    }
}

/// Relocates the piece on `origin` to `destination` and updates the flags as
/// the move rules demand. Callers must gate on `is_legal` first: this function
/// does not re-validate the move.
pub fn apply(board: &mut Board, origin: (usize, usize), destination: (usize, usize))
    requires
        old(board).wf(),
        origin.0 < 8,
        origin.1 < 8,
        destination.0 < 8,
        destination.1 < 8,
        !(origin.0 == destination.0 && origin.1 == destination.1),
    ensures
        final(board).wf(),
        final(board)@ == spec_apply(
            old(board)@,
            origin.0 as int,
            origin.1 as int,
            destination.0 as int,
            destination.1 as int,
        ),
{
    let (f0, r0) = origin;
    let (f1, r1) = destination;
    let p = match board.piece_at(f0, r0) {
        Some(p) => p,
        None => {
            return;
        },
    };
    let ep_capture = match p.kind {
        PieceType::Pawn => f1 != f0 && board.piece_at(f1, r1).is_none(),
        _ => false,
    };
    clear_ep_flags(board);
    if ep_capture {
        board.place(f1, r0, None);
    }
    board.place(f0, r0, None);
    let moved = update_flags(
        Piece {
            is_en_passant_target: false,
            ..p
        },
        r0,
        r1,
    );
    board.place(f1, r1, Some(moved));
}

} // verus!

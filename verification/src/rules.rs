//! The move legality engine: one rule per piece kind, a dispatch on the piece
//! standing on the origin square, and the check-safety filter — a move is
//! legal exactly when it fits its kind's geometry and capture rule and does
//! not leave the mover's own king attacked on the resulting board.

use vstd::prelude::*;

use crate::attack::{in_check, is_in_check};
use crate::board::{at, on_board, Board};
use crate::execute::{apply, spec_apply};
use crate::geometry::{
    bishop_shape, forward, iabs, king_shape, knight_shape, path_clear, rook_shape,
    strictly_between, diag_rank_at,
};
use crate::piece::{opposite, Color, Piece, PieceType};

verus! {

/// The destination may be empty or hold an enemy piece; capturing one's own
/// piece is never allowed.
pub open spec fn dest_ok(b: Seq<Option<Piece>>, c: Color, f1: int, r1: int) -> bool {
    match at(b, f1, r1) {
        Some(q) => q.color == opposite(c),
        None => true,
    }
}

/// A pawn's diagonal step must capture: either the destination holds an enemy
/// piece, or it is empty and an enemy pawn marked as en passant target stands
/// beside it, on the origin's rank.
pub open spec fn pawn_capture_rule(
    b: Seq<Option<Piece>>,
    c: Color,
    f0: int,
    r0: int,
    f1: int,
    r1: int,
) -> bool {
    match at(b, f1, r1) {
        Some(q) => q.color == opposite(c),
        None => at(b, f1, r0) matches Some(q) && q.kind is Pawn && q.color == opposite(c)
            && q.is_en_passant_target,
    }
}

/// The pawn rule: one step straight ahead onto an empty square; two steps from
/// a pawn that still may double-step, over an empty square onto an empty
/// square; or one step diagonally ahead as a capture.
pub open spec fn pawn_rule(
    b: Seq<Option<Piece>>,
    p: Piece,
    f0: int,
    r0: int,
    f1: int,
    r1: int,
) -> bool
    recommends
        p.kind is Pawn,
{
    let d = forward(p.color);
    ||| (f1 == f0 && r1 == r0 + d && at(b, f1, r1) is None)
    ||| (f1 == f0 && r1 == r0 + 2 * d && p.double_step_available && at(b, f0, r0 + d) is None
        && at(b, f1, r1) is None)
    ||| (iabs(f1 - f0) == 1 && r1 == r0 + d && pawn_capture_rule(b, p.color, f0, r0, f1, r1))
}

/// The geometry and capture rule of the piece's kind, check safety aside.
pub open spec fn geometry_ok(
    b: Seq<Option<Piece>>,
    p: Piece,
    f0: int,
    r0: int,
    f1: int,
    r1: int,
) -> bool {
    match p.kind {
        PieceType::Pawn => pawn_rule(b, p, f0, r0, f1, r1),
        PieceType::Rook => rook_shape(f0, r0, f1, r1) && path_clear(b, f0, r0, f1, r1) && dest_ok(
            b,
            p.color,
            f1,
            r1,
        ),
        PieceType::Knight => knight_shape(f0, r0, f1, r1) && dest_ok(b, p.color, f1, r1),
        PieceType::Bishop => bishop_shape(f0, r0, f1, r1) && path_clear(b, f0, r0, f1, r1)
            && dest_ok(b, p.color, f1, r1),
        PieceType::Queen => (rook_shape(f0, r0, f1, r1) || bishop_shape(f0, r0, f1, r1))
            && path_clear(b, f0, r0, f1, r1) && dest_ok(b, p.color, f1, r1),
        PieceType::King => king_shape(f0, r0, f1, r1) && dest_ok(b, p.color, f1, r1),
    }
}

/// The move from `(f0, r0)` to `(f1, r1)` is legal: both squares are on the
/// board and distinct, a piece stands on the origin, the move fits that
/// piece's geometry and capture rule, and the mover's king is not in check on
/// the resulting board.
pub open spec fn spec_is_legal(b: Seq<Option<Piece>>, f0: int, r0: int, f1: int, r1: int) -> bool {
    &&& on_board(f0, r0)
    &&& on_board(f1, r1)
    &&& !(f0 == f1 && r0 == r1)
    &&& at(b, f0, r0) matches Some(p) && geometry_ok(b, p, f0, r0, f1, r1) && !in_check(
        spec_apply(b, f0, r0, f1, r1),
        p.color,
    )
}

/// Whether every square strictly between two rook- or bishop-aligned squares
/// is empty.
fn clear_between(board: &Board, f0: usize, r0: usize, f1: usize, r1: usize) -> (res: bool)
    requires
        board.wf(),
        f0 < 8,
        r0 < 8,
        f1 < 8,
        r1 < 8,
        rook_shape(f0 as int, r0 as int, f1 as int, r1 as int) || bishop_shape(
            f0 as int,
            r0 as int,
            f1 as int,
            r1 as int,
        ),
    ensures
        res == path_clear(board@, f0 as int, r0 as int, f1 as int, r1 as int),
{
    if r0 == r1 {
        let (lo, hi) = if f0 < f1 {
            (f0, f1)
        } else {
            (f1, f0)
        };
        let mut f = lo + 1;
        while f < hi
            invariant
                board.wf(),
                r0 < 8,
                hi < 8,
                lo < f,
                f <= hi,
                r0 == r1,
                f0 != f1,
                (lo == f0 && hi == f1) || (lo == f1 && hi == f0),
                forall|x: int| lo < x < f ==> (#[trigger] at(board@, x, r0 as int)) is None,
            decreases hi - f,
        {
            if board.piece_at(f, r0).is_some() {
                return false;
            }
            f = f + 1;
        }
        true
    } else if f0 == f1 {
        let (lo, hi) = if r0 < r1 {
            (r0, r1)
        } else {
            (r1, r0)
        };
        let mut r = lo + 1;
        while r < hi
            invariant
                board.wf(),
                f0 < 8,
                hi < 8,
                lo < r,
                r <= hi,
                f0 == f1,
                r0 != r1,
                (lo == r0 && hi == r1) || (lo == r1 && hi == r0),
                forall|x: int| lo < x < r ==> (#[trigger] at(board@, f0 as int, x)) is None,
            decreases hi - r,
        {
            if board.piece_at(f0, r).is_some() {
                return false;
            }
            r = r + 1;
        }
        true
    } else {
        let up = (f1 > f0) == (r1 > r0);
        let (lof, lor) = if f0 < f1 {
            (f0, r0)
        } else {
            (f1, r1)
        };
        let hif = if f0 < f1 {
            f1
        } else {
            f0
        };
        let mut f = lof + 1;
        while f < hif
            invariant
                board.wf(),
                f0 < 8,
                r0 < 8,
                f1 < 8,
                r1 < 8,
                bishop_shape(f0 as int, r0 as int, f1 as int, r1 as int),
                up == ((f1 > f0) == (r1 > r0)),
                lof < 8,
                lor < 8,
                hif < 8,
                lof < f,
                f <= hif,
                (lof == f0 && lor == r0 && hif == f1) || (lof == f1 && lor == r1 && hif == f0),
                lof < hif,
                forall|x: int|
                    lof < x < f ==> (#[trigger] at(
                        board@,
                        x,
                        diag_rank_at(f0 as int, r0 as int, f1 as int, r1 as int, x),
                    )) is None,
            decreases hif - f,
        {
            let rr = if up {
                lor + (f - lof)
            } else {
                lor - (f - lof)
            };
            proof {
                assert(rr == diag_rank_at(f0 as int, r0 as int, f1 as int, r1 as int, f as int));
                assert(0 <= rr < 8);
            }
            if board.piece_at(f, rr).is_some() {
                proof {
                    assert(strictly_between(f0 as int, f1 as int, f as int));
                }
                return false;
            }
            f = f + 1;
        }
        true
    }
}

/// The pawn rule, as executable code.
fn check_pawn(board: &Board, p: Piece, f0: usize, r0: usize, f1: usize, r1: usize) -> (res: bool)
    requires
        board.wf(),
        f0 < 8,
        r0 < 8,
        f1 < 8,
        r1 < 8,
        p.kind is Pawn,
    ensures
        res == pawn_rule(board@, p, f0 as int, r0 as int, f1 as int, r1 as int),
{
    let df = f1 as i32 - f0 as i32;
    let dr = r1 as i32 - r0 as i32;
    let d: i32 = match p.color {
        Color::White => 1,
        Color::Black => -1,
    };
    if df == 0 && dr == d {
        board.piece_at(f1, r1).is_none()
    } else if df == 0 && dr == 2 * d && p.double_step_available {
        let mid = (r0 as i32 + d) as usize;
        board.piece_at(f0, mid).is_none() && board.piece_at(f1, r1).is_none()
    } else if (df == 1 || df == -1) && dr == d {
        match board.piece_at(f1, r1) {
            Some(q) => q.color != p.color,
            None => match board.piece_at(f1, r0) {
                Some(q) => q.kind == PieceType::Pawn && q.color != p.color
                    && q.is_en_passant_target,
                None => false,
            },
        }
    } else {
        false
    }
}

/// The destination check, as executable code.
fn check_dest(board: &Board, c: Color, f1: usize, r1: usize) -> (res: bool)
    requires
        board.wf(),
        f1 < 8,
        r1 < 8,
    ensures
        res == dest_ok(board@, c, f1 as int, r1 as int),
{
    match board.piece_at(f1, r1) {
        Some(q) => q.color != c,
        None => true,
    }
}

/// Whether the proposed move is legal: the origin holds a piece, the move fits
/// that piece's geometry and capture rule, and the mover's own king is not
/// attacked on the board that would result. Out-of-range coordinates, an empty
/// origin and a null move are all simply illegal; nothing panics and the board
/// is never altered.
pub fn is_legal(board: &Board, origin: (usize, usize), destination: (usize, usize)) -> (res: bool)
    requires
        board.wf(),
    ensures
        res == spec_is_legal(
            board@,
            origin.0 as int,
            origin.1 as int,
            destination.0 as int,
            destination.1 as int,
        ),
{
    let (f0, r0) = origin;
    let (f1, r1) = destination;
    if f0 >= 8 || r0 >= 8 || f1 >= 8 || r1 >= 8 {
        return false;
    }
    if f0 == f1 && r0 == r1 {
        return false;
    }
    let p = match board.piece_at(f0, r0) {
        Some(p) => p,
        None => {
            return false;
        },
    };
    let df = f1 as i32 - f0 as i32;
    let dr = r1 as i32 - r0 as i32;
    let geometry = match p.kind {
        PieceType::Pawn => check_pawn(board, p, f0, r0, f1, r1),
        PieceType::Rook => (df == 0) != (dr == 0) && clear_between(board, f0, r0, f1, r1)
            && check_dest(board, p.color, f1, r1),
        PieceType::Knight => {
            let shape = ((df == 1 || df == -1) && (dr == 2 || dr == -2)) || ((df == 2 || df == -2)
                && (dr == 1 || dr == -1));
            shape && check_dest(board, p.color, f1, r1)
        },
        PieceType::Bishop => df != 0 && (df == dr || df == -dr) && clear_between(
            board,
            f0,
            r0,
            f1,
            r1,
        ) && check_dest(board, p.color, f1, r1),
        PieceType::Queen => {
            let straight = (df == 0) != (dr == 0);
            let diagonal = df != 0 && (df == dr || df == -dr);
            (straight || diagonal) && clear_between(board, f0, r0, f1, r1) && check_dest(
                board,
                p.color,
                f1,
                r1,
            )
        },
        PieceType::King => {
            let shape = -1 <= df && df <= 1 && -1 <= dr && dr <= 1;
            shape && check_dest(board, p.color, f1, r1)
        },
    };
    if !geometry {
        return false;
    }
    let mut simulated = board.duplicate();
    apply(&mut simulated, origin, destination);
    !is_in_check(&simulated, p.color)
}

/// Commits the move when it is legal and reports whether it was; an illegal
/// move leaves the board unchanged.
pub fn make_move(board: &mut Board, origin: (usize, usize), destination: (usize, usize)) -> (legal:
    bool)
    requires
        old(board).wf(),
    ensures
        final(board).wf(),
        legal == spec_is_legal(
            old(board)@,
            origin.0 as int,
            origin.1 as int,
            destination.0 as int,
            destination.1 as int,
        ),
        legal ==> final(board)@ == spec_apply(
            old(board)@,
            origin.0 as int,
            origin.1 as int,
            destination.0 as int,
            destination.1 as int,
        ),
        !legal ==> final(board)@ == old(board)@,
{
    if is_legal(board, origin, destination) {
        apply(board, origin, destination);
        true
    } else {
        false
    }
}

} // verus!

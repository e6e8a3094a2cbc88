//! Move geometry: the displacement shape of each piece kind and the
//! path-clearance predicates for sliding pieces (rook, bishop, queen). All of
//! it is specification-level; the executable rule checks are proved against
//! these predicates.

use vstd::prelude::*;

use crate::board::at;
use crate::piece::{Color, Piece};

verus! {

/// Absolute value.
pub open spec fn iabs(x: int) -> int {
    if x >= 0 {
        x
    } else {
        -x
    }
}

/// Whether `x` lies strictly between `a` and `b` (in either order).
pub open spec fn strictly_between(a: int, b: int, x: int) -> bool {
    (a < x && x < b) || (b < x && x < a)
}

/// A rook displacement: purely horizontal or purely vertical, and nonzero.
pub open spec fn rook_shape(f0: int, r0: int, f1: int, r1: int) -> bool {
    (f0 == f1 && r0 != r1) || (r0 == r1 && f0 != f1)
}

/// A bishop displacement: equal absolute file and rank delta, nonzero.
pub open spec fn bishop_shape(f0: int, r0: int, f1: int, r1: int) -> bool {
    f0 != f1 && iabs(f1 - f0) == iabs(r1 - r0)
}

/// A knight displacement: one of the eight (1, 2) combinations.
pub open spec fn knight_shape(f0: int, r0: int, f1: int, r1: int) -> bool {
    (iabs(f1 - f0) == 1 && iabs(r1 - r0) == 2) || (iabs(f1 - f0) == 2 && iabs(r1 - r0) == 1)
}

/// A king displacement: at most one square in each direction, and nonzero.
pub open spec fn king_shape(f0: int, r0: int, f1: int, r1: int) -> bool {
    iabs(f1 - f0) <= 1 && iabs(r1 - r0) <= 1 && !(f0 == f1 && r0 == r1)
}

/// The rank of the square with file `f` on the diagonal through `(f0, r0)` and
/// `(f1, r1)`; meaningful when the two squares are bishop-aligned.
pub open spec fn diag_rank_at(f0: int, r0: int, f1: int, r1: int, f: int) -> int {
    if (f1 > f0) == (r1 > r0) {
        r0 + (f - f0)
    } else {
        r0 - (f - f0)
    }
}

/// Every square strictly between two squares of one rank is empty.
pub open spec fn row_clear(b: Seq<Option<Piece>>, r: int, fa: int, fb: int) -> bool {
    forall|f: int| strictly_between(fa, fb, f) ==> (#[trigger] at(b, f, r)) is None
}

/// Every square strictly between two squares of one file is empty.
pub open spec fn col_clear(b: Seq<Option<Piece>>, f: int, ra: int, rb: int) -> bool {
    forall|r: int| strictly_between(ra, rb, r) ==> (#[trigger] at(b, f, r)) is None
}

/// Every square strictly between two bishop-aligned squares is empty.
pub open spec fn diag_clear(b: Seq<Option<Piece>>, f0: int, r0: int, f1: int, r1: int) -> bool {
    forall|f: int|
        strictly_between(f0, f1, f) ==> (#[trigger] at(
            b,
            f,
            diag_rank_at(f0, r0, f1, r1, f),
        )) is None
}

/// Every square strictly between `(f0, r0)` and `(f1, r1)` is empty;
/// meaningful when the two squares are rook- or bishop-aligned.
pub open spec fn path_clear(b: Seq<Option<Piece>>, f0: int, r0: int, f1: int, r1: int) -> bool {
    if r0 == r1 {
        row_clear(b, r0, f0, f1)
    } else if f0 == f1 {
        col_clear(b, f0, r0, r1)
    } else {
        diag_clear(b, f0, r0, f1, r1)
    }
}

/// Path clearance does not depend on which end of the line one starts from.
pub proof fn lemma_path_clear_symmetric(b: Seq<Option<Piece>>, f0: int, r0: int, f1: int, r1: int)
    requires
        rook_shape(f0, r0, f1, r1) || bishop_shape(f0, r0, f1, r1),
    ensures
        path_clear(b, f0, r0, f1, r1) == path_clear(b, f1, r1, f0, r0),
{
    if r0 != r1 && f0 != f1 {
        assert forall|f: int| strictly_between(f0, f1, f) implies diag_rank_at(
            f0,
            r0,
            f1,
            r1,
            f,
        ) == diag_rank_at(f1, r1, f0, r0, f) by {}
        if diag_clear(b, f0, r0, f1, r1) {
            assert forall|f: int| strictly_between(f1, f0, f) implies at(
                b,
                f,
                diag_rank_at(f1, r1, f0, r0, f),
            ) is None by {
                assert(at(b, f, diag_rank_at(f0, r0, f1, r1, f)) is None);
            }
        }
        if diag_clear(b, f1, r1, f0, r0) {
            assert forall|f: int| strictly_between(f0, f1, f) implies at(
                b,
                f,
                diag_rank_at(f0, r0, f1, r1, f),
            ) is None by {
                assert(at(b, f, diag_rank_at(f1, r1, f0, r0, f)) is None);
            }
        }
    }
}

/// The rank a pawn of color `c` steps toward: up the board for White, down for
/// Black.
pub open spec fn forward(c: Color) -> int {
    match c {
        Color::White => 1,
        Color::Black => -1,
    }
}

/// The squares a pawn of color `c` standing on `(f0, r0)` attacks: one step
/// diagonally forward.
pub open spec fn pawn_attack_shape(c: Color, f0: int, r0: int, f1: int, r1: int) -> bool {
    iabs(f1 - f0) == 1 && r1 - r0 == forward(c)
}

} // verus!

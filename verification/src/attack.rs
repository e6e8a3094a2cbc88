//! The check detector: whether a square is attacked by a side, and whether a
//! side's king is in check. The specification says a square is attacked when
//! some enemy piece could reach it in one move (ignoring check safety); the
//! executable detector instead scans outward from the square along knight
//! jumps, pawn and king offsets and the eight rays, and is proved equivalent.

use vstd::prelude::*;

use crate::board::{at, board_wf, on_board, Board};
use crate::geometry::{
    bishop_shape, diag_rank_at, forward, iabs, king_shape, knight_shape,
    lemma_path_clear_symmetric, path_clear, pawn_attack_shape, rook_shape, strictly_between,
};
use crate::piece::{opposite, Color, Piece, PieceType};

verus! {

/// Whether the piece standing on `(f0, r0)` could reach `(f1, r1)` in one
/// move, ignoring check safety. For a pawn this is its capture geometry; for
/// the sliding pieces the path between the squares must be clear.
pub open spec fn attacks(b: Seq<Option<Piece>>, f0: int, r0: int, f1: int, r1: int) -> bool {
    &&& on_board(f0, r0)
    &&& on_board(f1, r1)
    &&& at(b, f0, r0) matches Some(p) && match p.kind {
        PieceType::Pawn => pawn_attack_shape(p.color, f0, r0, f1, r1),
        PieceType::Knight => knight_shape(f0, r0, f1, r1),
        PieceType::Rook => rook_shape(f0, r0, f1, r1) && path_clear(b, f0, r0, f1, r1),
        PieceType::Bishop => bishop_shape(f0, r0, f1, r1) && path_clear(b, f0, r0, f1, r1),
        PieceType::Queen => (rook_shape(f0, r0, f1, r1) || bishop_shape(f0, r0, f1, r1))
            && path_clear(b, f0, r0, f1, r1),
        PieceType::King => king_shape(f0, r0, f1, r1),
    }
}

/// Whether some piece of color `by` attacks square `(f, r)`.
pub open spec fn square_attacked(b: Seq<Option<Piece>>, f: int, r: int, by: Color) -> bool {
    exists|f0: int, r0: int|
        #![trigger at(b, f0, r0)]
        at(b, f0, r0) matches Some(p) && p.color == by && attacks(b, f0, r0, f, r)
}

/// Whether `p` is a king of color `c`.
pub open spec fn is_king_of(p: Option<Piece>, c: Color) -> bool {
    p matches Some(q) && q.kind is King && q.color == c
}

/// Whether some king of color `c` stands on a square attacked by the other
/// side. (A board with no king of color `c` is never in check; every king of a
/// color counts if there are several.)
pub open spec fn in_check(b: Seq<Option<Piece>>, c: Color) -> bool {
    exists|f: int, r: int|
        #![trigger at(b, f, r)]
        on_board(f, r) && is_king_of(at(b, f, r), c) && square_attacked(b, f, r, opposite(c))
}

/// The piece of color `enemy` standing on `(f, r)`, if the square is on the
/// board and holds one.
pub open spec fn hostile(b: Seq<Option<Piece>>, enemy: Color, f: int, r: int) -> Option<Piece> {
    if on_board(f, r) {
        match at(b, f, r) {
            Some(p) => if p.color == enemy {
                Some(p)
            } else {
                None
            },
            None => None,
        }
    } else {
        None
    }
}

/// Whether `p` holds a piece of kind `k`.
pub open spec fn holds_kind(p: Option<Piece>, k: PieceType) -> bool {
    p matches Some(q) && q.kind == k
}

/// An enemy knight stands on one of the eight knight-jump squares.
pub open spec fn knight_threat(b: Seq<Option<Piece>>, kf: int, kr: int, enemy: Color) -> bool {
    ||| holds_kind(hostile(b, enemy, kf + 2, kr + 1), PieceType::Knight)
    ||| holds_kind(hostile(b, enemy, kf + 2, kr - 1), PieceType::Knight)
    ||| holds_kind(hostile(b, enemy, kf - 2, kr + 1), PieceType::Knight)
    ||| holds_kind(hostile(b, enemy, kf - 2, kr - 1), PieceType::Knight)
    ||| holds_kind(hostile(b, enemy, kf + 1, kr + 2), PieceType::Knight)
    ||| holds_kind(hostile(b, enemy, kf + 1, kr - 2), PieceType::Knight)
    ||| holds_kind(hostile(b, enemy, kf - 1, kr + 2), PieceType::Knight)
    ||| holds_kind(hostile(b, enemy, kf - 1, kr - 2), PieceType::Knight)
}

/// An enemy pawn stands on one of the two squares from which it would capture
/// onto `(kf, kr)`.
pub open spec fn pawn_threat(b: Seq<Option<Piece>>, kf: int, kr: int, enemy: Color) -> bool {
    ||| holds_kind(hostile(b, enemy, kf - 1, kr - forward(enemy)), PieceType::Pawn)
    ||| holds_kind(hostile(b, enemy, kf + 1, kr - forward(enemy)), PieceType::Pawn)
}

/// The enemy king stands on one of the eight adjacent squares.
pub open spec fn king_threat(b: Seq<Option<Piece>>, kf: int, kr: int, enemy: Color) -> bool {
    ||| holds_kind(hostile(b, enemy, kf + 1, kr), PieceType::King)
    ||| holds_kind(hostile(b, enemy, kf - 1, kr), PieceType::King)
    ||| holds_kind(hostile(b, enemy, kf, kr + 1), PieceType::King)
    ||| holds_kind(hostile(b, enemy, kf, kr - 1), PieceType::King)
    ||| holds_kind(hostile(b, enemy, kf + 1, kr + 1), PieceType::King)
    ||| holds_kind(hostile(b, enemy, kf + 1, kr - 1), PieceType::King)
    ||| holds_kind(hostile(b, enemy, kf - 1, kr + 1), PieceType::King)
    ||| holds_kind(hostile(b, enemy, kf - 1, kr - 1), PieceType::King)
}

/// A unit ray direction.
pub open spec fn dir_ok(df: int, dr: int) -> bool {
    -1 <= df <= 1 && -1 <= dr <= 1 && !(df == 0 && dr == 0)
}

/// Whether `(f, r)` lies strictly beyond `(kf, kr)` in direction `(df, dr)`.
pub open spec fn on_ray(kf: int, kr: int, f: int, r: int, df: int, dr: int) -> bool
    recommends
        dir_ok(df, dr),
{
    if dr == 0 {
        r == kr && (if df == 1 {
            f > kf
        } else {
            f < kf
        })
    } else if df == 0 {
        f == kf && (if dr == 1 {
            r > kr
        } else {
            r < kr
        })
    } else {
        &&& iabs(f - kf) == iabs(r - kr)
        &&& (if df == 1 {
            f > kf
        } else {
            f < kf
        })
        &&& (if dr == 1 {
            r > kr
        } else {
            r < kr
        })
    }
}

/// The kinds that attack along a ray: rook or queen on an orthogonal ray,
/// bishop or queen on a diagonal one.
pub open spec fn ray_kind_ok(k: PieceType, orth: bool) -> bool {
    if orth {
        k is Rook || k is Queen
    } else {
        k is Bishop || k is Queen
    }
}

/// Walking outward from `(f, r)` in direction `(df, dr)` for at most `fuel`
/// steps, the first occupied square holds an enemy piece that attacks along
/// this ray.
pub open spec fn ray_attack(
    b: Seq<Option<Piece>>,
    f: int,
    r: int,
    df: int,
    dr: int,
    enemy: Color,
    orth: bool,
    fuel: nat,
) -> bool
    decreases fuel,
{
    if fuel == 0 {
        false
    } else if !on_board(f + df, r + dr) {
        false
    } else {
        match at(b, f + df, r + dr) {
            Some(p) => p.color == enemy && ray_kind_ok(p.kind, orth),
            None => ray_attack(b, f + df, r + dr, df, dr, enemy, orth, (fuel - 1) as nat),
        }
    }
}

/// What the outward scan from `(kf, kr)` looks at, as one predicate.
pub open spec fn scan_spec(b: Seq<Option<Piece>>, kf: int, kr: int, enemy: Color) -> bool {
    ||| knight_threat(b, kf, kr, enemy)
    ||| pawn_threat(b, kf, kr, enemy)
    ||| king_threat(b, kf, kr, enemy)
    ||| ray_attack(b, kf, kr, 1, 0, enemy, true, 8)
    ||| ray_attack(b, kf, kr, -1, 0, enemy, true, 8)
    ||| ray_attack(b, kf, kr, 0, 1, enemy, true, 8)
    ||| ray_attack(b, kf, kr, 0, -1, enemy, true, 8)
    ||| ray_attack(b, kf, kr, 1, 1, enemy, false, 8)
    ||| ray_attack(b, kf, kr, 1, -1, enemy, false, 8)
    ||| ray_attack(b, kf, kr, -1, 1, enemy, false, 8)
    ||| ray_attack(b, kf, kr, -1, -1, enemy, false, 8)
}

/// A piece of color `by` that attacks `(f, r)` witnesses `square_attacked`.
pub proof fn lemma_attacker_witness(
    b: Seq<Option<Piece>>,
    f: int,
    r: int,
    by: Color,
    f0: int,
    r0: int,
)
    requires
        at(b, f0, r0) matches Some(p) && p.color == by && attacks(b, f0, r0, f, r),
    ensures
        square_attacked(b, f, r, by),
{
    assert(at(b, f0, r0) matches Some(p) && p.color == by && attacks(b, f0, r0, f, r));
}

/// If the outward scan standing at `(f, r)` (with everything from `(kf, kr)`
/// to `(f, r)` empty, the start aside) hits an enemy ray piece, then that
/// piece attacks `(kf, kr)`.
pub proof fn lemma_ray_sound(
    b: Seq<Option<Piece>>,
    kf: int,
    kr: int,
    f: int,
    r: int,
    df: int,
    dr: int,
    enemy: Color,
    orth: bool,
    fuel: nat,
)
    requires
        board_wf(b),
        on_board(kf, kr),
        on_board(f, r),
        dir_ok(df, dr),
        orth == (df == 0 || dr == 0),
        path_clear(b, kf, kr, f, r),
        (f == kf && r == kr) || (on_ray(kf, kr, f, r, df, dr) && at(b, f, r) is None),
        ray_attack(b, f, r, df, dr, enemy, orth, fuel),
    ensures
        square_attacked(b, kf, kr, enemy),
    decreases fuel,
{
    let f2 = f + df;
    let r2 = r + dr;
    assert(fuel > 0);
    assert(on_board(f2, r2));
    assert(on_ray(kf, kr, f2, r2, df, dr));
    if dr == 0 {
        assert forall|x: int| strictly_between(kf, f2, x) implies (at(b, x, kr)) is None by {
            if x != f {
                assert(strictly_between(kf, f, x));
            }
        }
    } else if df == 0 {
        assert forall|x: int| strictly_between(kr, r2, x) implies (at(b, kf, x)) is None by {
            if x != r {
                assert(strictly_between(kr, r, x));
            }
        }
    } else {
        assert forall|x: int| strictly_between(kf, f2, x) implies (at(
            b,
            x,
            diag_rank_at(kf, kr, f2, r2, x),
        )) is None by {
            if x == f {
                assert(diag_rank_at(kf, kr, f2, r2, x) == r);
            } else {
                assert(strictly_between(kf, f, x));
                assert(diag_rank_at(kf, kr, f2, r2, x) == diag_rank_at(kf, kr, f, r, x));
                assert(at(b, x, diag_rank_at(kf, kr, f, r, x)) is None);
            }
        }
    }
    assert(path_clear(b, kf, kr, f2, r2));
    match at(b, f2, r2) {
        Some(p) => {
            assert(p.color == enemy && ray_kind_ok(p.kind, orth));
            lemma_path_clear_symmetric(b, kf, kr, f2, r2);
            assert(attacks(b, f2, r2, kf, kr));
            lemma_attacker_witness(b, kf, kr, enemy, f2, r2);
        },
        None => {
            lemma_ray_sound(b, kf, kr, f2, r2, df, dr, enemy, orth, (fuel - 1) as nat);
        },
    }
}

/// If an enemy ray piece stands at `(tf, tr)`, strictly beyond `(f, r)` in
/// direction `(df, dr)` with a clear path, the outward scan from `(f, r)`
/// finds an enemy ray piece.
pub proof fn lemma_ray_complete(
    b: Seq<Option<Piece>>,
    f: int,
    r: int,
    tf: int,
    tr: int,
    df: int,
    dr: int,
    enemy: Color,
    orth: bool,
    fuel: nat,
)
    requires
        board_wf(b),
        on_board(f, r),
        on_board(tf, tr),
        dir_ok(df, dr),
        orth == (df == 0 || dr == 0),
        on_ray(f, r, tf, tr, df, dr),
        path_clear(b, f, r, tf, tr),
        at(b, tf, tr) matches Some(p) && p.color == enemy && ray_kind_ok(p.kind, orth),
        fuel >= iabs(tf - f),
        fuel >= iabs(tr - r),
    ensures
        ray_attack(b, f, r, df, dr, enemy, orth, fuel),
    decreases iabs(tf - f) + iabs(tr - r),
{
    let f2 = f + df;
    let r2 = r + dr;
    assert(on_board(f2, r2));
    if f2 == tf && r2 == tr {
        assert(ray_attack(b, f, r, df, dr, enemy, orth, fuel));
    } else {
        if dr == 0 {
            assert(strictly_between(f, tf, f2));
            assert(at(b, f2, r2) is None);
            assert forall|x: int| strictly_between(f2, tf, x) implies (at(b, x, r2)) is None by {
                assert(strictly_between(f, tf, x));
            }
        } else if df == 0 {
            assert(strictly_between(r, tr, r2));
            assert(at(b, f2, r2) is None);
            assert forall|x: int| strictly_between(r2, tr, x) implies (at(b, f2, x)) is None by {
                assert(strictly_between(r, tr, x));
            }
        } else {
            assert(strictly_between(f, tf, f2));
            assert(diag_rank_at(f, r, tf, tr, f2) == r2);
            assert(at(b, f2, diag_rank_at(f, r, tf, tr, f2)) is None);
            assert forall|x: int| strictly_between(f2, tf, x) implies (at(
                b,
                x,
                diag_rank_at(f2, r2, tf, tr, x),
            )) is None by {
                assert(strictly_between(f, tf, x));
                assert(diag_rank_at(f2, r2, tf, tr, x) == diag_rank_at(f, r, tf, tr, x));
                assert(at(b, x, diag_rank_at(f, r, tf, tr, x)) is None);
            }
        }
        assert(path_clear(b, f2, r2, tf, tr));
        assert(on_ray(f2, r2, tf, tr, df, dr));
        lemma_ray_complete(b, f2, r2, tf, tr, df, dr, enemy, orth, (fuel - 1) as nat);
        assert(ray_attack(b, f, r, df, dr, enemy, orth, fuel));
    }
}

/// A knight, pawn or king of color `enemy` standing on `(f0, r0)` with the
/// right shape toward `(kf, kr)` attacks it.
proof fn lemma_offset_attacker(
    b: Seq<Option<Piece>>,
    kf: int,
    kr: int,
    enemy: Color,
    f0: int,
    r0: int,
)
    requires
        on_board(kf, kr),
        hostile(b, enemy, f0, r0) matches Some(p) && match p.kind {
            PieceType::Knight => knight_shape(f0, r0, kf, kr),
            PieceType::Pawn => pawn_attack_shape(enemy, f0, r0, kf, kr),
            PieceType::King => king_shape(f0, r0, kf, kr),
            _ => false,
        },
    ensures
        square_attacked(b, kf, kr, enemy),
{
    assert(at(b, f0, r0) matches Some(p) && p.color == enemy && attacks(b, f0, r0, kf, kr));
}

/// An enemy rook or queen with a clear rook line to `(kf, kr)` is found by one
/// of the four orthogonal scans.
proof fn lemma_rook_attacker_to_ray(
    b: Seq<Option<Piece>>,
    kf: int,
    kr: int,
    enemy: Color,
    f0: int,
    r0: int,
)
    requires
        board_wf(b),
        on_board(kf, kr),
        on_board(f0, r0),
        at(b, f0, r0) matches Some(p) && p.color == enemy && (p.kind is Rook || p.kind is Queen),
        rook_shape(f0, r0, kf, kr),
        path_clear(b, f0, r0, kf, kr),
    ensures
        ray_attack(b, kf, kr, 1, 0, enemy, true, 8) || ray_attack(b, kf, kr, -1, 0, enemy, true, 8)
            || ray_attack(b, kf, kr, 0, 1, enemy, true, 8) || ray_attack(
            b,
            kf,
            kr,
            0,
            -1,
            enemy,
            true,
            8,
        ),
{
    lemma_path_clear_symmetric(b, f0, r0, kf, kr);
    if r0 == kr {
        if f0 > kf {
            assert(on_ray(kf, kr, f0, r0, 1, 0));
            lemma_ray_complete(b, kf, kr, f0, r0, 1, 0, enemy, true, 8);
        } else {
            assert(on_ray(kf, kr, f0, r0, -1, 0));
            lemma_ray_complete(b, kf, kr, f0, r0, -1, 0, enemy, true, 8);
        }
    } else {
        if r0 > kr {
            assert(on_ray(kf, kr, f0, r0, 0, 1));
            lemma_ray_complete(b, kf, kr, f0, r0, 0, 1, enemy, true, 8);
        } else {
            assert(on_ray(kf, kr, f0, r0, 0, -1));
            lemma_ray_complete(b, kf, kr, f0, r0, 0, -1, enemy, true, 8);
        }
    }
}

/// An enemy bishop or queen with a clear diagonal to `(kf, kr)` is found by
/// one of the four diagonal scans.
proof fn lemma_bishop_attacker_to_ray(
    b: Seq<Option<Piece>>,
    kf: int,
    kr: int,
    enemy: Color,
    f0: int,
    r0: int,
)
    requires
        board_wf(b),
        on_board(kf, kr),
        on_board(f0, r0),
        at(b, f0, r0) matches Some(p) && p.color == enemy && (p.kind is Bishop
            || p.kind is Queen),
        bishop_shape(f0, r0, kf, kr),
        path_clear(b, f0, r0, kf, kr),
    ensures
        ray_attack(b, kf, kr, 1, 1, enemy, false, 8) || ray_attack(
            b,
            kf,
            kr,
            1,
            -1,
            enemy,
            false,
            8,
        ) || ray_attack(b, kf, kr, -1, 1, enemy, false, 8) || ray_attack(
            b,
            kf,
            kr,
            -1,
            -1,
            enemy,
            false,
            8,
        ),
{
    lemma_path_clear_symmetric(b, f0, r0, kf, kr);
    if f0 > kf {
        if r0 > kr {
            assert(on_ray(kf, kr, f0, r0, 1, 1));
            lemma_ray_complete(b, kf, kr, f0, r0, 1, 1, enemy, false, 8);
        } else {
            assert(on_ray(kf, kr, f0, r0, 1, -1));
            lemma_ray_complete(b, kf, kr, f0, r0, 1, -1, enemy, false, 8);
        }
    } else {
        if r0 > kr {
            assert(on_ray(kf, kr, f0, r0, -1, 1));
            lemma_ray_complete(b, kf, kr, f0, r0, -1, 1, enemy, false, 8);
        } else {
            assert(on_ray(kf, kr, f0, r0, -1, -1));
            lemma_ray_complete(b, kf, kr, f0, r0, -1, -1, enemy, false, 8);
        }
    }
}

/// The outward scan sees an attacker exactly when some enemy piece attacks the
/// square: the check detector's algorithm matches its contract.
pub proof fn lemma_scan_characterization(b: Seq<Option<Piece>>, kf: int, kr: int, enemy: Color)
    requires
        board_wf(b),
        on_board(kf, kr),
    ensures
        square_attacked(b, kf, kr, enemy) == scan_spec(b, kf, kr, enemy),
{
    if square_attacked(b, kf, kr, enemy) {
        let (f0, r0) = choose|f0: int, r0: int|
            #![trigger at(b, f0, r0)]
            at(b, f0, r0) matches Some(p) && p.color == enemy && attacks(b, f0, r0, kf, kr);
        let p = at(b, f0, r0).unwrap();
        match p.kind {
            PieceType::Pawn => {
                assert(r0 == kr - forward(enemy));
                assert(f0 == kf - 1 || f0 == kf + 1);
                assert(pawn_threat(b, kf, kr, enemy));
            },
            PieceType::Knight => {
                assert((f0 == kf + 2 && r0 == kr + 1) || (f0 == kf + 2 && r0 == kr - 1) || (f0
                    == kf - 2 && r0 == kr + 1) || (f0 == kf - 2 && r0 == kr - 1) || (f0 == kf + 1
                    && r0 == kr + 2) || (f0 == kf + 1 && r0 == kr - 2) || (f0 == kf - 1 && r0 == kr
                    + 2) || (f0 == kf - 1 && r0 == kr - 2));
                assert(knight_threat(b, kf, kr, enemy));
            },
            PieceType::King => {
                assert(king_threat(b, kf, kr, enemy));
            },
            PieceType::Rook => {
                lemma_rook_attacker_to_ray(b, kf, kr, enemy, f0, r0);
            },
            PieceType::Bishop => {
                lemma_bishop_attacker_to_ray(b, kf, kr, enemy, f0, r0);
            },
            PieceType::Queen => {
                if rook_shape(f0, r0, kf, kr) {
                    lemma_rook_attacker_to_ray(b, kf, kr, enemy, f0, r0);
                } else {
                    lemma_bishop_attacker_to_ray(b, kf, kr, enemy, f0, r0);
                }
            },
        }
        assert(scan_spec(b, kf, kr, enemy));
    }
    if scan_spec(b, kf, kr, enemy) {
        if knight_threat(b, kf, kr, enemy) {
            if holds_kind(hostile(b, enemy, kf + 2, kr + 1), PieceType::Knight) {
                lemma_offset_attacker(b, kf, kr, enemy, kf + 2, kr + 1);
            } else if holds_kind(hostile(b, enemy, kf + 2, kr - 1), PieceType::Knight) {
                lemma_offset_attacker(b, kf, kr, enemy, kf + 2, kr - 1);
            } else if holds_kind(hostile(b, enemy, kf - 2, kr + 1), PieceType::Knight) {
                lemma_offset_attacker(b, kf, kr, enemy, kf - 2, kr + 1);
            } else if holds_kind(hostile(b, enemy, kf - 2, kr - 1), PieceType::Knight) {
                lemma_offset_attacker(b, kf, kr, enemy, kf - 2, kr - 1);
            } else if holds_kind(hostile(b, enemy, kf + 1, kr + 2), PieceType::Knight) {
                lemma_offset_attacker(b, kf, kr, enemy, kf + 1, kr + 2);
            } else if holds_kind(hostile(b, enemy, kf + 1, kr - 2), PieceType::Knight) {
                lemma_offset_attacker(b, kf, kr, enemy, kf + 1, kr - 2);
            } else if holds_kind(hostile(b, enemy, kf - 1, kr + 2), PieceType::Knight) {
                lemma_offset_attacker(b, kf, kr, enemy, kf - 1, kr + 2);
            } else {
                lemma_offset_attacker(b, kf, kr, enemy, kf - 1, kr - 2);
            }
        } else if pawn_threat(b, kf, kr, enemy) {
            if holds_kind(hostile(b, enemy, kf - 1, kr - forward(enemy)), PieceType::Pawn) {
                lemma_offset_attacker(b, kf, kr, enemy, kf - 1, kr - forward(enemy));
            } else {
                lemma_offset_attacker(b, kf, kr, enemy, kf + 1, kr - forward(enemy));
            }
        } else if king_threat(b, kf, kr, enemy) {
            if holds_kind(hostile(b, enemy, kf + 1, kr), PieceType::King) {
                lemma_offset_attacker(b, kf, kr, enemy, kf + 1, kr);
            } else if holds_kind(hostile(b, enemy, kf - 1, kr), PieceType::King) {
                lemma_offset_attacker(b, kf, kr, enemy, kf - 1, kr);
            } else if holds_kind(hostile(b, enemy, kf, kr + 1), PieceType::King) {
                lemma_offset_attacker(b, kf, kr, enemy, kf, kr + 1);
            } else if holds_kind(hostile(b, enemy, kf, kr - 1), PieceType::King) {
                lemma_offset_attacker(b, kf, kr, enemy, kf, kr - 1);
            } else if holds_kind(hostile(b, enemy, kf + 1, kr + 1), PieceType::King) {
                lemma_offset_attacker(b, kf, kr, enemy, kf + 1, kr + 1);
            } else if holds_kind(hostile(b, enemy, kf + 1, kr - 1), PieceType::King) {
                lemma_offset_attacker(b, kf, kr, enemy, kf + 1, kr - 1);
            } else if holds_kind(hostile(b, enemy, kf - 1, kr + 1), PieceType::King) {
                lemma_offset_attacker(b, kf, kr, enemy, kf - 1, kr + 1);
            } else {
                lemma_offset_attacker(b, kf, kr, enemy, kf - 1, kr - 1);
            }
        } else {
            if ray_attack(b, kf, kr, 1, 0, enemy, true, 8) {
                lemma_ray_sound(b, kf, kr, kf, kr, 1, 0, enemy, true, 8);
            } else if ray_attack(b, kf, kr, -1, 0, enemy, true, 8) {
                lemma_ray_sound(b, kf, kr, kf, kr, -1, 0, enemy, true, 8);
            } else if ray_attack(b, kf, kr, 0, 1, enemy, true, 8) {
                lemma_ray_sound(b, kf, kr, kf, kr, 0, 1, enemy, true, 8);
            } else if ray_attack(b, kf, kr, 0, -1, enemy, true, 8) {
                lemma_ray_sound(b, kf, kr, kf, kr, 0, -1, enemy, true, 8);
            } else if ray_attack(b, kf, kr, 1, 1, enemy, false, 8) {
                lemma_ray_sound(b, kf, kr, kf, kr, 1, 1, enemy, false, 8);
            } else if ray_attack(b, kf, kr, 1, -1, enemy, false, 8) {
                lemma_ray_sound(b, kf, kr, kf, kr, 1, -1, enemy, false, 8);
            } else if ray_attack(b, kf, kr, -1, 1, enemy, false, 8) {
                lemma_ray_sound(b, kf, kr, kf, kr, -1, 1, enemy, false, 8);
            } else {
                lemma_ray_sound(b, kf, kr, kf, kr, -1, -1, enemy, false, 8);
            }
        }
        assert(square_attacked(b, kf, kr, enemy));
    }
}

/// The enemy piece on `(f, r)`, where the coordinates may run off the board.
fn hostile_at(board: &Board, enemy: Color, f: i16, r: i16) -> (p: Option<Piece>)
    requires
        board.wf(),
    ensures
        p == hostile(board@, enemy, f as int, r as int),
{
    if 0 <= f && f < 8 && 0 <= r && r < 8 {
        match board.piece_at(f as usize, r as usize) {
            Some(q) => if q.color == enemy {
                Some(q)
            } else {
                None
            },
            None => None,
        }
    } else {
        None
    }
}

/// Whether `p` holds a piece of kind `k`.
fn holds_kind_check(p: Option<Piece>, k: PieceType) -> (res: bool)
    ensures
        res == holds_kind(p, k),
{
    match p {
        Some(q) => q.kind == k,
        None => false,
    }
}

/// Whether an enemy knight stands a knight's jump away from `(kf, kr)`.
fn knight_check(board: &Board, kf: usize, kr: usize, enemy: Color) -> (res: bool)
    requires
        board.wf(),
        kf < 8,
        kr < 8,
    ensures
        res == knight_threat(board@, kf as int, kr as int, enemy),
{
    let f = kf as i16;
    let r = kr as i16;
    let k = PieceType::Knight;
    holds_kind_check(hostile_at(board, enemy, f + 2, r + 1), k) || holds_kind_check(
        hostile_at(board, enemy, f + 2, r - 1),
        k,
    ) || holds_kind_check(hostile_at(board, enemy, f - 2, r + 1), k) || holds_kind_check(
        hostile_at(board, enemy, f - 2, r - 1),
        k,
    ) || holds_kind_check(hostile_at(board, enemy, f + 1, r + 2), k) || holds_kind_check(
        hostile_at(board, enemy, f + 1, r - 2),
        k,
    ) || holds_kind_check(hostile_at(board, enemy, f - 1, r + 2), k) || holds_kind_check(
        hostile_at(board, enemy, f - 1, r - 2),
        k,
    )
}

/// Whether an enemy pawn stands on a square from which it would capture onto
/// `(kf, kr)`.
fn pawn_check(board: &Board, kf: usize, kr: usize, enemy: Color) -> (res: bool)
    requires
        board.wf(),
        kf < 8,
        kr < 8,
    ensures
        res == pawn_threat(board@, kf as int, kr as int, enemy),
{
    let f = kf as i16;
    let fwd: i16 = match enemy {
        Color::White => 1,
        Color::Black => -1,
    };
    let r = kr as i16 - fwd;
    let k = PieceType::Pawn;
    holds_kind_check(hostile_at(board, enemy, f - 1, r), k) || holds_kind_check(
        hostile_at(board, enemy, f + 1, r),
        k,
    )
}

/// Whether the enemy king stands on a square adjacent to `(kf, kr)`.
fn king_check(board: &Board, kf: usize, kr: usize, enemy: Color) -> (res: bool)
    requires
        board.wf(),
        kf < 8,
        kr < 8,
    ensures
        res == king_threat(board@, kf as int, kr as int, enemy),
{
    let f = kf as i16;
    let r = kr as i16;
    let k = PieceType::King;
    holds_kind_check(hostile_at(board, enemy, f + 1, r), k) || holds_kind_check(
        hostile_at(board, enemy, f - 1, r),
        k,
    ) || holds_kind_check(hostile_at(board, enemy, f, r + 1), k) || holds_kind_check(
        hostile_at(board, enemy, f, r - 1),
        k,
    ) || holds_kind_check(hostile_at(board, enemy, f + 1, r + 1), k) || holds_kind_check(
        hostile_at(board, enemy, f + 1, r - 1),
        k,
    ) || holds_kind_check(hostile_at(board, enemy, f - 1, r + 1), k) || holds_kind_check(
        hostile_at(board, enemy, f - 1, r - 1),
        k,
    )
}

/// Walks outward from `(f, r)` in direction `(df, dr)` until the board edge or
/// the first piece, and reports whether that piece is an enemy rook/queen (on
/// an orthogonal ray) or bishop/queen (on a diagonal one).
fn scan_ray(
    board: &Board,
    f: usize,
    r: usize,
    df: i8,
    dr: i8,
    enemy: Color,
    orth: bool,
    fuel: u8,
) -> (res: bool)
    requires
        board.wf(),
        f < 8,
        r < 8,
        dir_ok(df as int, dr as int),
        orth == (df as int == 0 || dr as int == 0),
    ensures
        res == ray_attack(board@, f as int, r as int, df as int, dr as int, enemy, orth,
            fuel as nat,
        ),
    decreases fuel,
{
    if fuel == 0 {
        return false;
    }
    let f2 = f as i8 + df;
    let r2 = r as i8 + dr;
    if f2 < 0 || f2 > 7 || r2 < 0 || r2 > 7 {
        return false;
    }
    match board.piece_at(f2 as usize, r2 as usize) {
        Some(p) => {
            let kind_ok = if orth {
                p.kind == PieceType::Rook || p.kind == PieceType::Queen
            } else {
                p.kind == PieceType::Bishop || p.kind == PieceType::Queen
            };
            p.color == enemy && kind_ok
        },
        None => scan_ray(board, f2 as usize, r2 as usize, df, dr, enemy, orth, fuel - 1),
    }
}

/// Whether any piece of the color opposing `king_color` could, in one move
/// ignoring check safety, reach `king_square`.
pub fn is_attacked(board: &Board, king_square: (usize, usize), king_color: Color) -> (res: bool)
    requires
        board.wf(),
        king_square.0 < 8,
        king_square.1 < 8,
    ensures
        res == square_attacked(
            board@,
            king_square.0 as int,
            king_square.1 as int,
            opposite(king_color),
        ),
{
    let (kf, kr) = king_square;
    let enemy = king_color.flip();
    let hit = knight_check(board, kf, kr, enemy) || pawn_check(board, kf, kr, enemy) || king_check(
        board,
        kf,
        kr,
        enemy,
    ) || scan_ray(board, kf, kr, 1, 0, enemy, true, 8) || scan_ray(
        board,
        kf,
        kr,
        -1,
        0,
        enemy,
        true,
        8,
    ) || scan_ray(board, kf, kr, 0, 1, enemy, true, 8) || scan_ray(
        board,
        kf,
        kr,
        0,
        -1,
        enemy,
        true,
        8,
    ) || scan_ray(board, kf, kr, 1, 1, enemy, false, 8) || scan_ray(
        board,
        kf,
        kr,
        1,
        -1,
        enemy,
        false,
        8,
    ) || scan_ray(board, kf, kr, -1, 1, enemy, false, 8) || scan_ray(
        board,
        kf,
        kr,
        -1,
        -1,
        enemy,
        false,
        8,
    );
    proof {
        lemma_scan_characterization(board@, kf as int, kr as int, enemy);
    }
    hit
}

/// Whether the side of color `c` stands in check: some king of that color is
/// attacked by the other side.
pub fn is_in_check(board: &Board, c: Color) -> (res: bool)
    requires
        board.wf(),
    ensures
        res == in_check(board@, c),
{
    let mut f: usize = 0;
    while f < 8
        invariant
            board.wf(),
            f <= 8,
            forall|f2: int, r2: int|
                0 <= f2 < f && 0 <= r2 < 8 ==> !(is_king_of(#[trigger] at(board@, f2, r2), c)
                    && square_attacked(board@, f2, r2, opposite(c))),
        decreases 8 - f,
    {
        let mut r: usize = 0;
        while r < 8
            invariant
                board.wf(),
                f < 8,
                r <= 8,
                forall|f2: int, r2: int|
                    0 <= f2 < f && 0 <= r2 < 8 ==> !(is_king_of(#[trigger] at(board@, f2, r2), c)
                        && square_attacked(board@, f2, r2, opposite(c))),
                forall|r2: int|
                    0 <= r2 < r ==> !(is_king_of(#[trigger] at(board@, f as int, r2), c)
                        && square_attacked(board@, f as int, r2, opposite(c))),
            decreases 8 - r,
        {
            let king_here = match board.piece_at(f, r) {
                Some(p) => p.kind == PieceType::King && p.color == c,
                None => false,
            };
            if king_here {
                if is_attacked(board, (f, r), c) {
                    return true;
                }
            }
            r = r + 1;
        }
        f = f + 1;
    }
    false
}

} // verus!

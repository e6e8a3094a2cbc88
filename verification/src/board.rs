//! The board: an 8 by 8 grid of optional pieces, stored row-major by file and
//! rank, plus the standard initial layout. A square is a pair `(file, rank)`
//! with both coordinates in `[0, 7]`; file 0 is the A file, rank 0 is rank 1.

use vstd::prelude::*;

use crate::piece::{Color, Piece, PieceType, fresh_piece};

verus! {

/// A board view is well formed when it has one entry per square.
pub open spec fn board_wf(b: Seq<Option<Piece>>) -> bool {
    b.len() == 64
}

/// Whether `(f, r)` names a real square.
pub open spec fn on_board(f: int, r: int) -> bool {
    0 <= f < 8 && 0 <= r < 8
}

/// The index of square `(f, r)` in the row-major view.
pub open spec fn square_ix(f: int, r: int) -> int {
    f * 8 + r
}

/// The occupant of square `(f, r)`.
pub open spec fn at(b: Seq<Option<Piece>>, f: int, r: int) -> Option<Piece> {
    b[square_ix(f, r)]
}

/// An 8 by 8 grid of optional pieces.
pub struct Board {
    squares: Vec<Option<Piece>>,
}

impl View for Board {
    type V = Seq<Option<Piece>>;

    closed spec fn view(&self) -> Seq<Option<Piece>> {
        self.squares@
    }
}

impl Board {
    pub open spec fn wf(&self) -> bool {
        board_wf(self@)
    }

    /// A board with no pieces on it.
    pub fn empty() -> (b: Board)
        ensures
            b.wf(),
            forall|f: int, r: int| on_board(f, r) ==> at(b@, f, r) is None,
    {
        let mut squares: Vec<Option<Piece>> = Vec::new();
        let mut i: usize = 0;
        while i < 64
            invariant
                i <= 64,
                squares@.len() == i,
                forall|j: int| 0 <= j < i ==> squares@[j] is None,
            decreases 64 - i,
        {
            squares.push(None);
            i = i + 1;
        }
        Board { squares }
    }

    /// The occupant of square `(f, r)`.
    pub fn piece_at(&self, f: usize, r: usize) -> (p: Option<Piece>)
        requires
            self.wf(),
            f < 8,
            r < 8,
        ensures
            p == at(self@, f as int, r as int),
    {
        self.squares[f * 8 + r]
    }

    /// Puts `p` on square `(f, r)`, replacing whatever stood there.
    pub fn place(&mut self, f: usize, r: usize, p: Option<Piece>)
        requires
            old(self).wf(),
            f < 8,
            r < 8,
        ensures
            final(self).wf(),
            final(self)@ == old(self)@.update(square_ix(f as int, r as int), p),
    {
        self.squares.set(f * 8 + r, p);
    }

    /// The entry at position `i` of the row-major view.
    pub(crate) fn get_linear(&self, i: usize) -> (p: Option<Piece>)
        requires
            self.wf(),
            i < 64,
        ensures
            p == self@[i as int],
    {
        self.squares[i]
    }

    /// Replaces the entry at position `i` of the row-major view.
    pub(crate) fn set_linear(&mut self, i: usize, p: Option<Piece>)
        requires
            old(self).wf(),
            i < 64,
        ensures
            final(self).wf(),
            final(self)@ == old(self)@.update(i as int, p),
    {
        self.squares.set(i, p);
    }

    /// An independent copy, used for speculative moves.
    pub fn duplicate(&self) -> (b: Board)
        requires
            self.wf(),
        ensures
            b.wf(),
            b@ == self@,
    {
        let mut squares: Vec<Option<Piece>> = Vec::new();
        let mut i: usize = 0;
        while i < 64
            invariant
                self.wf(),
                i <= 64,
                squares@.len() == i,
                forall|j: int| 0 <= j < i ==> squares@[j] == self@[j],
            decreases 64 - i,
        {
            squares.push(self.squares[i]);
            i = i + 1;
        }
        let b = Board { squares };
        proof {
            assert(b@ =~= self@);
        }
        b
    }
}

/// The kind standing on file `f` of each side's back rank at game start.
pub open spec fn back_rank_kind(f: int) -> PieceType {
    if f == 0 || f == 7 {
        PieceType::Rook
    } else if f == 1 || f == 6 {
        PieceType::Knight
    } else if f == 2 || f == 5 {
        PieceType::Bishop
    } else if f == 3 {
        PieceType::Queen
    } else {
        PieceType::King
    }
}

/// The occupant of square `(f, r)` in the standard starting position.
pub open spec fn initial_at(f: int, r: int) -> Option<Piece> {
    if r == 0 {
        Some(fresh_piece(Color::White, back_rank_kind(f)))
    } else if r == 1 {
        Some(fresh_piece(Color::White, PieceType::Pawn))
    } else if r == 6 {
        Some(fresh_piece(Color::Black, PieceType::Pawn))
    } else if r == 7 {
        Some(fresh_piece(Color::Black, back_rank_kind(f)))
    } else {
        None
    }
}

/// The back-rank kind for file `f`, as executable code.
fn back_rank_piece(f: usize) -> (k: PieceType)
    requires
        f < 8,
    ensures
        k == back_rank_kind(f as int),
{
    if f == 0 || f == 7 {
        PieceType::Rook
    } else if f == 1 || f == 6 {
        PieceType::Knight
    } else if f == 2 || f == 5 {
        PieceType::Bishop
    } else if f == 3 {
        PieceType::Queen
    } else {
        PieceType::King
    }
}

/// The standard starting position.
pub fn initial_board() -> (b: Board)
    ensures
        b.wf(),
        forall|f: int, r: int| on_board(f, r) ==> at(b@, f, r) == initial_at(f, r),
{
    let mut b = Board::empty();
    let mut f: usize = 0;
    while f < 8
        invariant
            b.wf(),
            f <= 8,
            forall|f2: int, r2: int|
                on_board(f2, r2) && f2 < f ==> at(b@, f2, r2) == initial_at(f2, r2),
            forall|f2: int, r2: int|
                on_board(f2, r2) && f2 >= f ==> at(b@, f2, r2) is None,
        decreases 8 - f,
    {
        let kind = back_rank_piece(f);
        b.place(f, 0, Some(Piece::new(Color::White, kind)));
        b.place(f, 1, Some(Piece::new(Color::White, PieceType::Pawn)));
        b.place(f, 6, Some(Piece::new(Color::Black, PieceType::Pawn)));
        b.place(f, 7, Some(Piece::new(Color::Black, kind)));
        f = f + 1;
    }
    b
}

} // verus!

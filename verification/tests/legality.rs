use chess_engine::board::initial_board;
use chess_engine::piece::{Color, Piece, PieceType};
use chess_engine::rules::is_legal;
use chess_engine::Board;

fn piece(color: Color, kind: PieceType) -> Piece {
    Piece::new(color, kind)
}

#[test]
fn null_move_is_illegal() {
    let board = initial_board();
    for f in 0..8 {
        for r in 0..8 {
            assert!(!is_legal(&board, (f, r), (f, r)));
        }
    }
}

#[test]
fn initial_position_scenarios() {
    let board = initial_board();
    // White pawn double step from A2.
    assert!(is_legal(&board, (0, 1), (0, 3)));
    // Three squares forward is out of range for a pawn.
    assert!(!is_legal(&board, (0, 1), (0, 4)));
    // Knight jump B1 to A3.
    assert!(is_legal(&board, (1, 0), (0, 2)));
    // Rook A1 to A3 is blocked by the own pawn on A2.
    assert!(!is_legal(&board, (0, 0), (0, 2)));
}

#[test]
fn out_of_range_coordinates_are_rejected() {
    let board = initial_board();
    assert!(!is_legal(&board, (8, 0), (0, 0)));
    assert!(!is_legal(&board, (0, 8), (0, 0)));
    assert!(!is_legal(&board, (0, 1), (8, 1)));
    assert!(!is_legal(&board, (0, 1), (0, 8)));
    assert!(!is_legal(&board, (usize::MAX, 0), (0, 0)));
}

#[test]
fn empty_origin_is_rejected() {
    let board = initial_board();
    assert!(!is_legal(&board, (4, 3), (4, 4)));
}

#[test]
fn own_piece_capture_is_rejected() {
    let board = initial_board();
    // Rook A1 onto the own pawn at A2.
    assert!(!is_legal(&board, (0, 0), (0, 1)));
    // King E1 onto the own queen at D1.
    assert!(!is_legal(&board, (4, 0), (3, 0)));
}

#[test]
fn rook_path_must_be_clear() {
    // A lone rook on D4 may reach D8 over an empty file; a blocker on any
    // square strictly between makes the move illegal.
    let mut board = Board::empty();
    board.place(3, 3, Some(piece(Color::White, PieceType::Rook)));
    assert!(is_legal(&board, (3, 3), (3, 7)));
    for blocker_rank in 4..7 {
        let mut blocked = Board::empty();
        blocked.place(3, 3, Some(piece(Color::White, PieceType::Rook)));
        blocked.place(3, blocker_rank, Some(piece(Color::Black, PieceType::Pawn)));
        assert!(!is_legal(&blocked, (3, 3), (3, 7)));
        // Capturing the blocker itself stays legal.
        assert!(is_legal(&blocked, (3, 3), (3, blocker_rank)));
    }
}

#[test]
fn bishop_path_must_be_clear() {
    // A lone bishop on A1 may reach H8; a blocker on any square strictly
    // between makes the move illegal.
    let mut board = Board::empty();
    board.place(0, 0, Some(piece(Color::Black, PieceType::Bishop)));
    assert!(is_legal(&board, (0, 0), (7, 7)));
    for d in 1..7 {
        let mut blocked = Board::empty();
        blocked.place(0, 0, Some(piece(Color::Black, PieceType::Bishop)));
        blocked.place(d, d, Some(piece(Color::Black, PieceType::Pawn)));
        assert!(!is_legal(&blocked, (0, 0), (7, 7)));
    }
}

#[test]
fn queen_moves_as_rook_or_bishop() {
    let mut board = Board::empty();
    board.place(3, 3, Some(piece(Color::White, PieceType::Queen)));
    assert!(is_legal(&board, (3, 3), (3, 6)));
    assert!(is_legal(&board, (3, 3), (6, 3)));
    assert!(is_legal(&board, (3, 3), (6, 6)));
    assert!(is_legal(&board, (3, 3), (0, 6)));
    // A knight-like displacement is not a queen move.
    assert!(!is_legal(&board, (3, 3), (4, 5)));
}

#[test]
fn king_moves_one_square() {
    let mut board = Board::empty();
    board.place(4, 4, Some(piece(Color::White, PieceType::King)));
    assert!(is_legal(&board, (4, 4), (4, 5)));
    assert!(is_legal(&board, (4, 4), (5, 5)));
    assert!(is_legal(&board, (4, 4), (3, 3)));
    assert!(!is_legal(&board, (4, 4), (4, 6)));
    assert!(!is_legal(&board, (4, 4), (6, 6)));
}

#[test]
fn pawn_cannot_capture_straight_ahead() {
    let mut board = Board::empty();
    board.place(4, 3, Some(piece(Color::White, PieceType::Pawn)));
    board.place(4, 4, Some(piece(Color::Black, PieceType::Pawn)));
    assert!(!is_legal(&board, (4, 3), (4, 4)));
}

#[test]
fn pawn_captures_diagonally() {
    let mut board = Board::empty();
    board.place(4, 3, Some(piece(Color::White, PieceType::Pawn)));
    board.place(5, 4, Some(piece(Color::Black, PieceType::Rook)));
    board.place(3, 4, Some(piece(Color::White, PieceType::Rook)));
    // Capturing the enemy rook is legal; the own rook is not a capture.
    assert!(is_legal(&board, (4, 3), (5, 4)));
    assert!(!is_legal(&board, (4, 3), (3, 4)));
    // A diagonal step onto an empty square is no capture.
    let mut open = Board::empty();
    open.place(4, 3, Some(piece(Color::White, PieceType::Pawn)));
    assert!(!is_legal(&open, (4, 3), (5, 4)));
}

#[test]
fn black_pawn_moves_down_the_board() {
    let mut board = Board::empty();
    board.place(4, 6, Some(piece(Color::Black, PieceType::Pawn)));
    assert!(is_legal(&board, (4, 6), (4, 5)));
    assert!(is_legal(&board, (4, 6), (4, 4)));
    assert!(!is_legal(&board, (4, 6), (4, 7)));
}

#[test]
fn knight_ignores_surrounding_pieces() {
    // A knight on D4 fenced in by pawns on all eight adjacent squares still
    // reaches every knight destination.
    let mut board = Board::empty();
    board.place(3, 3, Some(piece(Color::White, PieceType::Knight)));
    for (f, r) in [
        (2, 2),
        (2, 3),
        (2, 4),
        (3, 2),
        (3, 4),
        (4, 2),
        (4, 3),
        (4, 4),
    ] {
        board.place(f, r, Some(piece(Color::Black, PieceType::Pawn)));
    }
    for (f, r) in [
        (4, 5),
        (5, 4),
        (5, 2),
        (4, 1),
        (2, 1),
        (1, 2),
        (1, 4),
        (2, 5),
    ] {
        assert!(is_legal(&board, (3, 3), (f, r)));
    }
    // A knight destination occupied by an own piece stays blocked.
    let mut own = Board::empty();
    own.place(3, 3, Some(piece(Color::White, PieceType::Knight)));
    own.place(4, 5, Some(piece(Color::White, PieceType::Pawn)));
    assert!(!is_legal(&own, (3, 3), (4, 5)));
}

#[test]
fn move_exposing_own_king_is_illegal() {
    // The white rook on E2 shields the white king on E1 from the black rook
    // on E8: it may move along the file but not leave it.
    let mut board = Board::empty();
    board.place(4, 0, Some(piece(Color::White, PieceType::King)));
    board.place(4, 1, Some(piece(Color::White, PieceType::Rook)));
    board.place(4, 7, Some(piece(Color::Black, PieceType::Rook)));
    assert!(is_legal(&board, (4, 1), (4, 3)));
    assert!(!is_legal(&board, (4, 1), (3, 1)));
}

#[test]
fn king_cannot_step_into_attack() {
    let mut board = Board::empty();
    board.place(4, 0, Some(piece(Color::White, PieceType::King)));
    board.place(3, 7, Some(piece(Color::Black, PieceType::Rook)));
    // Stepping onto the D file walks into the rook's line.
    assert!(!is_legal(&board, (4, 0), (3, 0)));
    assert!(!is_legal(&board, (4, 0), (3, 1)));
    assert!(is_legal(&board, (4, 0), (5, 0)));
}

#[test]
fn king_in_check_must_resolve_it() {
    // The white king on E1 is checked by the black rook on E8. A bystander
    // rook on A2 may not wander off while the check stands, but it may
    // interpose on E2, and the king may step aside.
    let mut board = Board::empty();
    board.place(4, 0, Some(piece(Color::White, PieceType::King)));
    board.place(4, 7, Some(piece(Color::Black, PieceType::Rook)));
    board.place(0, 1, Some(piece(Color::White, PieceType::Rook)));
    // Moving the bystander sideways leaves the king in check.
    assert!(!is_legal(&board, (0, 1), (0, 3)));
    // Interposing on E2 blocks the check.
    assert!(is_legal(&board, (0, 1), (4, 1)));
    // The king may step out of the file.
    assert!(is_legal(&board, (4, 0), (3, 0)));
}

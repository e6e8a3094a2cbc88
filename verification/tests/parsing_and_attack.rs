use chess_engine::board::initial_board;
use chess_engine::attack::{is_attacked, is_in_check};
use chess_engine::parse::parse_move;
use chess_engine::piece::{Color, Piece, PieceType};
use chess_engine::Board;

fn piece(color: Color, kind: PieceType) -> Piece {
    Piece::new(color, kind)
}

#[test]
fn parse_move_accepts_well_formed_requests() {
    assert_eq!(parse_move("A2 A4"), Some(((0, 1), (0, 3))));
    assert_eq!(parse_move("H8 A1"), Some(((7, 7), (0, 0))));
    assert_eq!(parse_move("E2 E4"), Some(((4, 1), (4, 3))));
}

#[test]
fn parse_move_rejects_malformed_requests() {
    assert_eq!(parse_move(""), None);
    assert_eq!(parse_move("A2"), None);
    assert_eq!(parse_move("A2A4"), None);
    assert_eq!(parse_move("A2  A4"), None);
    assert_eq!(parse_move("A2 A4 "), None);
    assert_eq!(parse_move("I2 A4"), None);
    assert_eq!(parse_move("A9 A4"), None);
    assert_eq!(parse_move("A2 A0"), None);
    assert_eq!(parse_move("a2 a4"), None);
    assert_eq!(parse_move("2A A4"), None);
}

#[test]
fn initial_kings_are_not_in_check() {
    let board = initial_board();
    assert!(!is_in_check(&board, Color::White));
    assert!(!is_in_check(&board, Color::Black));
}

#[test]
fn rook_attacks_along_clear_lines_only() {
    let mut board = Board::empty();
    board.place(0, 0, Some(piece(Color::Black, PieceType::Rook)));
    assert!(is_attacked(&board, (0, 7), Color::White));
    assert!(is_attacked(&board, (7, 0), Color::White));
    assert!(!is_attacked(&board, (7, 7), Color::White));
    // A piece of either color on the line blocks the attack.
    board.place(0, 4, Some(piece(Color::Black, PieceType::Pawn)));
    assert!(!is_attacked(&board, (0, 7), Color::White));
    // The color argument names the defender: a black king square is only
    // attacked by white pieces, and here only black ones stand on the board.
    assert!(!is_attacked(&board, (7, 0), Color::Black));
}

#[test]
fn bishop_and_queen_attack_diagonals() {
    let mut board = Board::empty();
    board.place(2, 2, Some(piece(Color::White, PieceType::Bishop)));
    assert!(is_attacked(&board, (5, 5), Color::Black));
    assert!(is_attacked(&board, (0, 4), Color::Black));
    assert!(!is_attacked(&board, (2, 5), Color::Black));
    let mut q = Board::empty();
    q.place(2, 2, Some(piece(Color::White, PieceType::Queen)));
    assert!(is_attacked(&q, (5, 5), Color::Black));
    assert!(is_attacked(&q, (2, 7), Color::Black));
}

#[test]
fn knight_attacks_over_blockers() {
    let mut board = Board::empty();
    board.place(3, 3, Some(piece(Color::Black, PieceType::Knight)));
    // Fence the knight in; its jumps still land.
    for (f, r) in [
        (2, 2),
        (2, 3),
        (2, 4),
        (3, 2),
        (3, 4),
        (4, 2),
        (4, 3),
        (4, 4),
    ] {
        board.place(f, r, Some(piece(Color::White, PieceType::Pawn)));
    }
    assert!(is_attacked(&board, (4, 5), Color::White));
    assert!(is_attacked(&board, (5, 4), Color::White));
    assert!(is_attacked(&board, (1, 2), Color::White));
    assert!(!is_attacked(&board, (3, 5), Color::White));
}

#[test]
fn pawns_attack_diagonally_forward_only() {
    let mut board = Board::empty();
    board.place(4, 4, Some(piece(Color::White, PieceType::Pawn)));
    assert!(is_attacked(&board, (3, 5), Color::Black));
    assert!(is_attacked(&board, (5, 5), Color::Black));
    assert!(!is_attacked(&board, (4, 5), Color::Black));
    assert!(!is_attacked(&board, (3, 3), Color::Black));
    let mut b = Board::empty();
    b.place(4, 4, Some(piece(Color::Black, PieceType::Pawn)));
    assert!(is_attacked(&b, (3, 3), Color::White));
    assert!(is_attacked(&b, (5, 3), Color::White));
    assert!(!is_attacked(&b, (5, 5), Color::White));
}

#[test]
fn kings_attack_adjacent_squares() {
    let mut board = Board::empty();
    board.place(4, 4, Some(piece(Color::Black, PieceType::King)));
    assert!(is_attacked(&board, (3, 3), Color::White));
    assert!(is_attacked(&board, (4, 5), Color::White));
    assert!(!is_attacked(&board, (4, 6), Color::White));
}

#[test]
fn check_is_detected_for_the_right_side() {
    let mut board = Board::empty();
    board.place(4, 0, Some(piece(Color::White, PieceType::King)));
    board.place(4, 7, Some(piece(Color::Black, PieceType::Rook)));
    assert!(is_in_check(&board, Color::White));
    assert!(!is_in_check(&board, Color::Black));
    // Interpose a piece: the check disappears.
    board.place(4, 3, Some(piece(Color::Black, PieceType::Pawn)));
    assert!(!is_in_check(&board, Color::White));
}

#[test]
fn board_without_a_king_is_not_in_check() {
    let board = Board::empty();
    assert!(!is_in_check(&board, Color::White));
    assert!(!is_in_check(&board, Color::Black));
}

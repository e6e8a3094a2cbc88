use chess_engine::board::initial_board;
use chess_engine::execute::apply;
use chess_engine::piece::{Color, Piece, PieceType};
use chess_engine::rules::{is_legal, make_move};
use chess_engine::Board;

fn piece(color: Color, kind: PieceType) -> Piece {
    Piece::new(color, kind)
}

#[test]
fn initial_layout_is_the_standard_one() {
    let board = initial_board();
    let rook = board.piece_at(0, 0).unwrap();
    assert_eq!(rook.kind, PieceType::Rook);
    assert_eq!(rook.color, Color::White);
    assert!(rook.has_castling_rights);
    let queen = board.piece_at(3, 0).unwrap();
    assert_eq!(queen.kind, PieceType::Queen);
    let king = board.piece_at(4, 7).unwrap();
    assert_eq!(king.kind, PieceType::King);
    assert_eq!(king.color, Color::Black);
    for f in 0..8 {
        let white_pawn = board.piece_at(f, 1).unwrap();
        assert_eq!(white_pawn.kind, PieceType::Pawn);
        assert_eq!(white_pawn.color, Color::White);
        assert!(white_pawn.double_step_available);
        let black_pawn = board.piece_at(f, 6).unwrap();
        assert_eq!(black_pawn.kind, PieceType::Pawn);
        assert_eq!(black_pawn.color, Color::Black);
        for r in 2..6 {
            assert!(board.piece_at(f, r).is_none());
        }
    }
}

#[test]
fn apply_relocates_the_piece() {
    let mut board = initial_board();
    assert!(make_move(&mut board, (4, 1), (4, 3)));
    assert!(board.piece_at(4, 1).is_none());
    let pawn = board.piece_at(4, 3).unwrap();
    assert_eq!(pawn.kind, PieceType::Pawn);
    assert_eq!(pawn.color, Color::White);
}

#[test]
fn illegal_move_leaves_the_board_unchanged() {
    let mut board = initial_board();
    assert!(!make_move(&mut board, (0, 0), (0, 4)));
    let rook = board.piece_at(0, 0).unwrap();
    assert_eq!(rook.kind, PieceType::Rook);
    assert!(board.piece_at(0, 4).is_none());
}

#[test]
fn double_step_sets_the_en_passant_mark_and_spends_the_right() {
    let mut board = initial_board();
    assert!(make_move(&mut board, (0, 1), (0, 3)));
    let pawn = board.piece_at(0, 3).unwrap();
    assert!(pawn.is_en_passant_target);
    assert!(!pawn.double_step_available);
}

#[test]
fn single_step_spends_the_double_step_right() {
    let mut board = initial_board();
    assert!(make_move(&mut board, (0, 1), (0, 2)));
    let pawn = board.piece_at(0, 2).unwrap();
    assert!(!pawn.is_en_passant_target);
    assert!(!pawn.double_step_available);
    // The same pawn can no longer advance two squares.
    assert!(!is_legal(&board, (0, 2), (0, 4)));
}

#[test]
fn rook_and_king_lose_castling_rights_on_their_first_move() {
    let mut board = Board::empty();
    board.place(0, 0, Some(piece(Color::White, PieceType::Rook)));
    board.place(4, 0, Some(piece(Color::White, PieceType::King)));
    assert!(board.piece_at(0, 0).unwrap().has_castling_rights);
    assert!(make_move(&mut board, (0, 0), (0, 5)));
    assert!(!board.piece_at(0, 5).unwrap().has_castling_rights);
    assert!(make_move(&mut board, (4, 0), (4, 1)));
    assert!(!board.piece_at(4, 1).unwrap().has_castling_rights);
}

#[test]
fn en_passant_capture_removes_the_pawn_from_its_actual_square() {
    // A black pawn double-steps F7 to F5 past the white pawn on E5; the white
    // pawn captures en passant onto F6 and the black pawn disappears from F5.
    let mut board = Board::empty();
    board.place(4, 4, Some(piece(Color::White, PieceType::Pawn)));
    board.place(5, 6, Some(piece(Color::Black, PieceType::Pawn)));
    assert!(make_move(&mut board, (5, 6), (5, 4)));
    assert!(board.piece_at(5, 4).unwrap().is_en_passant_target);
    assert!(is_legal(&board, (4, 4), (5, 5)));
    assert!(make_move(&mut board, (4, 4), (5, 5)));
    let capturer = board.piece_at(5, 5).unwrap();
    assert_eq!(capturer.kind, PieceType::Pawn);
    assert_eq!(capturer.color, Color::White);
    // Captured from F5, not from the destination F6.
    assert!(board.piece_at(5, 4).is_none());
    assert!(board.piece_at(4, 4).is_none());
}

#[test]
fn en_passant_expires_after_the_next_move() {
    // As above, but another move intervenes before the capture: the mark is
    // gone and the diagonal step onto the empty square is illegal again.
    let mut board = Board::empty();
    board.place(4, 4, Some(piece(Color::White, PieceType::Pawn)));
    board.place(5, 6, Some(piece(Color::Black, PieceType::Pawn)));
    board.place(0, 0, Some(piece(Color::White, PieceType::Rook)));
    assert!(make_move(&mut board, (5, 6), (5, 4)));
    assert!(make_move(&mut board, (0, 0), (0, 1)));
    assert!(!board.piece_at(5, 4).unwrap().is_en_passant_target);
    assert!(!is_legal(&board, (4, 4), (5, 5)));
}

#[test]
fn ordinary_capture_replaces_the_occupant() {
    let mut board = Board::empty();
    board.place(3, 3, Some(piece(Color::White, PieceType::Rook)));
    board.place(3, 6, Some(piece(Color::Black, PieceType::Knight)));
    assert!(make_move(&mut board, (3, 3), (3, 6)));
    let rook = board.piece_at(3, 6).unwrap();
    assert_eq!(rook.kind, PieceType::Rook);
    assert_eq!(rook.color, Color::White);
    assert!(board.piece_at(3, 3).is_none());
}

#[test]
fn round_trip_returns_the_piece_with_kind_and_color_kept() {
    let mut board = Board::empty();
    board.place(0, 0, Some(piece(Color::White, PieceType::Rook)));
    assert!(make_move(&mut board, (0, 0), (0, 3)));
    assert!(make_move(&mut board, (0, 3), (0, 0)));
    let rook = board.piece_at(0, 0).unwrap();
    assert_eq!(rook.kind, PieceType::Rook);
    assert_eq!(rook.color, Color::White);
    // Castling rights, once lost, stay lost.
    assert!(!rook.has_castling_rights);
    assert!(board.piece_at(0, 3).is_none());
}

#[test]
fn apply_alone_commits_a_validated_move() {
    let mut board = initial_board();
    assert!(is_legal(&board, (6, 0), (5, 2)));
    apply(&mut board, (6, 0), (5, 2));
    assert_eq!(board.piece_at(5, 2).unwrap().kind, PieceType::Knight);
    assert!(board.piece_at(6, 0).is_none());
}

use encrustant::board::Board;
use encrustant::piece::Piece;
use encrustant::pseudo_legal::{PieceMove, PrecomputedData, PsuedoLegalMoveGenerator};
use encrustant::square::{Square, DIRECTIONS};

#[test]
fn start_position_has_pawn_and_knight_moves_only() {
    let board = Board::from_fen(Board::START_POSITION_FEN).unwrap();
    let generator = PsuedoLegalMoveGenerator::new(board);
    let mut moves = Vec::new();
    generator.gen(&mut moves);
    assert_eq!(moves.len(), 20);
    assert!(moves.contains(&PieceMove::new(
        Piece::WhitePawn,
        Square::from_notation("e2").unwrap(),
        Square::from_notation("e4").unwrap(),
        None
    )));
    assert!(moves.contains(&PieceMove::new(
        Piece::WhiteKnight,
        Square::from_notation("g1").unwrap(),
        Square::from_notation("f3").unwrap(),
        None
    )));
}

#[test]
fn friendly_and_enemy_pieces() {
    let board = Board::from_fen(Board::START_POSITION_FEN).unwrap();
    let generator = PsuedoLegalMoveGenerator::new(board);
    let e2 = Square::from_notation("e2").unwrap();
    let e7 = Square::from_notation("e7").unwrap();
    assert_eq!(generator.friendly_piece_at(e2), Some(Piece::WhitePawn));
    assert_eq!(generator.enemy_piece_at(e2), None);
    assert_eq!(generator.enemy_piece_at(e7), Some(Piece::BlackPawn));
}

#[test]
fn king_steps_avoid_friendly_pieces() {
    let board = Board::from_fen("4k3/8/8/8/8/8/3P4/4K3 w - - 0 1").unwrap();
    let generator = PsuedoLegalMoveGenerator::new(board);
    let mut moves = Vec::new();
    let e1 = Square::from_notation("e1").unwrap();
    generator.gen_king(&mut moves, Piece::WhiteKing, e1);
    // d1, f1, e2, f2 (d2 holds a white pawn)
    assert_eq!(moves.len(), 4);
}

#[test]
fn knight_jumps_capture_enemy_pieces() {
    let board = Board::from_fen("4k3/8/8/8/8/5p2/8/4K1N1 w - - 0 1").unwrap();
    let generator = PsuedoLegalMoveGenerator::new(board);
    let mut moves = Vec::new();
    let g1 = Square::from_notation("g1").unwrap();
    generator.gen_knight(&mut moves, Piece::WhiteKnight, g1);
    assert_eq!(moves.len(), 3);
    let f3 = Square::from_notation("f3").unwrap();
    assert!(moves.contains(&PieceMove::new(Piece::WhiteKnight, g1, f3, Some(Piece::BlackPawn))));
}

#[test]
fn a_rook_walk_stops_at_pieces() {
    // From d4 a rook walks up to d7 (a black pawn, taken), down to d3 (a
    // white pawn on d2 stops it), left to a4 and right to h4.
    let board = Board::from_fen("4k3/3p4/8/8/8/8/3P4/4K3 w - - 0 1").unwrap();
    let generator = PsuedoLegalMoveGenerator::new(board);
    let mut moves = Vec::new();
    let d4 = Square::from_notation("d4").unwrap();
    generator.gen_directional(&mut moves, Piece::WhiteRook, d4, &DIRECTIONS[0..4]);
    // up: d5, d6, d7 = 3; down: d3 = 1; left: c4, b4, a4 = 3; right: e4, f4, g4, h4 = 4
    assert_eq!(moves.len(), 11);
    assert!(moves.contains(&PieceMove::new(
        Piece::WhiteRook,
        d4,
        Square::from_notation("d7").unwrap(),
        Some(Piece::BlackPawn)
    )));
    assert!(!moves.iter().any(|m| m.to == d4 || m.to == Square::from_notation("d2").unwrap()));
}

#[test]
fn a_bishop_walks_the_diagonals_to_the_edge() {
    let board = Board::from_fen("4k3/8/8/8/8/8/8/B3K3 w - - 0 1").unwrap();
    let generator = PsuedoLegalMoveGenerator::new(board);
    let mut moves = Vec::new();
    let a1 = Square::from_notation("a1").unwrap();
    generator.gen_directional(&mut moves, Piece::WhiteBishop, a1, &DIRECTIONS[4..8]);
    assert_eq!(moves.len(), 7);
    assert_eq!(moves[6].to, Square::from_notation("h8").unwrap());
}

#[test]
fn pawns_capture_diagonally_and_need_empty_squares_ahead() {
    // The e2 pawn can take on d3; its double step is blocked on e4.
    let board = Board::from_fen("4k3/8/8/8/4p3/3n4/4P3/4K3 w - - 0 1").unwrap();
    let generator = PsuedoLegalMoveGenerator::new(board);
    let mut moves = Vec::new();
    generator.gen(&mut moves);
    let e2 = Square::from_notation("e2").unwrap();
    let pawn_moves: Vec<&PieceMove> = moves.iter().filter(|m| m.from == e2).collect();
    assert_eq!(pawn_moves.len(), 2);
    assert!(moves.contains(&PieceMove::new(
        Piece::WhitePawn,
        e2,
        Square::from_notation("d3").unwrap(),
        Some(Piece::BlackKnight)
    )));
    assert!(moves.contains(&PieceMove::new(Piece::WhitePawn, e2, Square::from_notation("e3").unwrap(), None)));
}

#[test]
fn a_walk_from_an_own_piece_gives_nothing() {
    let board = Board::from_fen(Board::START_POSITION_FEN).unwrap();
    let generator = PsuedoLegalMoveGenerator::new(board);
    let mut moves = Vec::new();
    let d1 = Square::from_notation("d1").unwrap();
    generator.gen_directional(&mut moves, Piece::WhiteQueen, d1, &DIRECTIONS);
    assert!(moves.is_empty());
}

#[test]
fn edge_distances() {
    let data = PrecomputedData::compute();
    assert_eq!(data.squares_from_edge[0], [7, 0, 0, 7, 0, 0, 7, 0]);
    assert_eq!(data.king_moves_at_square[0].len(), 3);
    assert_eq!(data.knight_moves_at_square[0].len(), 2);
    assert_eq!(data.white_pawn_attacks_at_square[8].len(), 1);
    assert_eq!(data.black_pawn_attacks_at_square[52].len(), 2);
}

#[test]
fn the_board_can_be_changed() {
    let board = Board::from_fen(Board::START_POSITION_FEN).unwrap();
    let mut generator = PsuedoLegalMoveGenerator::new(board);
    generator.board().white_to_move = false;
    let mut moves = Vec::new();
    generator.gen(&mut moves);
    assert_eq!(moves.len(), 20);
    assert!(moves.iter().all(|m| m.piece == Piece::BlackPawn || m.piece == Piece::BlackKnight));
}

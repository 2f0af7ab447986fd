use encrustant::board::Board;
use encrustant::piece::Piece;
use encrustant::square::Square;

#[test]
fn reads_the_start_position() {
    let board = Board::from_fen(Board::START_POSITION_FEN).unwrap();
    assert!(board.white_to_move);
    assert_eq!(board.piece_at(Square::from_notation("e1").unwrap()), Some(Piece::WhiteKing));
    assert_eq!(board.piece_at(Square::from_notation("d8").unwrap()), Some(Piece::BlackQueen));
    assert_eq!(board.piece_at(Square::from_notation("e4").unwrap()), None);
    let rights = board.game_state.castling_rights;
    assert!(rights.white_king_side && rights.white_queen_side && rights.black_king_side && rights.black_queen_side);
    assert_eq!(board.game_state.en_passant_square, None);
    assert_eq!(board.game_state.half_move_clock, 0);
}

#[test]
fn reads_en_passant_square_clock_and_side() {
    let board = Board::from_fen("rnbqkbnr/pppp1ppp/8/4p3/4P3/8/PPPP1PPP/RNBQKBNR w Kq e6 12 3").unwrap();
    assert_eq!(board.game_state.en_passant_square, Some(Square::from_notation("e6").unwrap()));
    assert_eq!(board.game_state.half_move_clock, 12);
    let rights = board.game_state.castling_rights;
    assert!(rights.white_king_side && !rights.white_queen_side && !rights.black_king_side && rights.black_queen_side);
    let black = Board::from_fen("8/8/8/8/8/8/8/k1K5 b - - 0 1").unwrap();
    assert!(!black.white_to_move);
}

#[test]
fn refuses_malformed_positions() {
    // Seven ranks.
    assert!(Board::from_fen("8/8/8/8/8/8/8 w - - 0 1").is_none());
    // A rank of nine squares.
    assert!(Board::from_fen("9/8/8/8/8/8/8/8 w - - 0 1").is_none());
    assert!(Board::from_fen("p8/8/8/8/8/8/8/8 w - - 0 1").is_none());
    // A rank of seven squares.
    assert!(Board::from_fen("7/8/8/8/8/8/8/8 w - - 0 1").is_none());
    // Unknown piece letter.
    assert!(Board::from_fen("x7/8/8/8/8/8/8/8 w - - 0 1").is_none());
    // Side to move.
    assert!(Board::from_fen("8/8/8/8/8/8/8/8 x - - 0 1").is_none());
    // Castling letters.
    assert!(Board::from_fen("8/8/8/8/8/8/8/8 w KX - 0 1").is_none());
    assert!(Board::from_fen("8/8/8/8/8/8/8/8 w  - 0 1").is_none());
    // En passant square.
    assert!(Board::from_fen("8/8/8/8/8/8/8/8 w - e9 0 1").is_none());
    // Clocks.
    assert!(Board::from_fen("8/8/8/8/8/8/8/8 w - - x 1").is_none());
    assert!(Board::from_fen("8/8/8/8/8/8/8/8 w - - 0").is_none());
    assert!(Board::from_fen("8/8/8/8/8/8/8/8 w - - 4294967296 1").is_none());
    assert!(Board::from_fen("").is_none());
}

#[test]
fn largest_half_move_clock() {
    let board = Board::from_fen("8/8/8/8/8/8/8/k1K5 w - - 4294967295 1").unwrap();
    assert_eq!(board.game_state.half_move_clock, u32::MAX);
}

#[test]
fn writes_the_start_position() {
    let board = Board::from_fen(Board::START_POSITION_FEN).unwrap();
    assert_eq!(String::from_utf8(board.to_fen()).unwrap(), Board::START_POSITION_FEN);
}

#[test]
fn written_positions_read_back() {
    for fen in [
        "r3k2r/p1ppqpb1/bn2pnp1/3PN3/1p2P3/2N2Q1p/PPPBBPPP/R3K2R w KQkq - 0 1",
        "rnbqkbnr/pppp1ppp/8/4p3/4P3/8/PPPP1PPP/RNBQKBNR w Kq e6 12 1",
        "8/8/8/3K4/8/8/8/7k b - - 4294967295 1",
        "8/2p5/3p4/KP5r/1R3p1k/8/4P1P1/8 w - - 0 1",
    ] {
        let board = Board::from_fen(fen).unwrap();
        let written = board.to_fen();
        assert_eq!(String::from_utf8(written.clone()).unwrap(), fen);
        let again = Board::from_fen_bytes(&written).unwrap();
        assert_eq!(again.bit_boards, board.bit_boards);
        assert_eq!(again.white_to_move, board.white_to_move);
        assert_eq!(again.game_state, board.game_state);
    }
}

#[test]
fn the_full_move_number_is_written_as_one() {
    let board = Board::from_fen("8/8/8/8/8/8/8/k1K5 w - - 3 40").unwrap();
    assert_eq!(String::from_utf8(board.to_fen()).unwrap(), "8/8/8/8/8/8/8/k1K5 w - - 3 1");
}

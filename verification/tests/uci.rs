use encrustant::board::Board;
use encrustant::move_data::{Flag, Move};
use encrustant::search::{megabytes_to_capacity, Search};
use encrustant::square::Square;
use encrustant::uci::{command_of, decode_move, encode_move, parse_position, split_words, time_manager_for, GoParameters, UciCommand};

fn words(text: &str) -> Vec<Vec<u8>> {
    split_words(text.as_bytes())
}

#[test]
fn splits_on_any_white_space() {
    let pieces = words("  go\tdepth  5\n");
    assert_eq!(pieces, vec![b"go".to_vec(), b"depth".to_vec(), b"5".to_vec()]);
    assert!(words("   ").is_empty());
}

#[test]
fn encodes_moves() {
    let promotion = Move {
        from: Square::from_notation("a7").unwrap(),
        to: Square::from_notation("a8").unwrap(),
        flag: Flag::QueenPromotion,
    };
    assert_eq!(encode_move(promotion), b"a7a8q".to_vec());
    let castle = Move {
        from: Square::from_notation("e1").unwrap(),
        to: Square::from_notation("g1").unwrap(),
        flag: Flag::Castle,
    };
    assert_eq!(encode_move(castle), b"e1g1".to_vec());
}

#[test]
fn decodes_moves_with_their_flags() {
    let board = Board::from_fen(Board::START_POSITION_FEN).unwrap();
    let double = decode_move(&board, b"e2e4").unwrap();
    assert_eq!(double.flag, Flag::PawnTwoUp);
    let single = decode_move(&board, b"e2e3").unwrap();
    assert_eq!(single.flag, Flag::Normal);
    assert_eq!(decode_move(&board, b"e2e5"), None);
    assert_eq!(decode_move(&board, b"e7e5"), None);

    let castling = Board::from_fen("r3k2r/8/8/8/8/8/8/R3K2R w KQkq - 0 1").unwrap();
    assert_eq!(decode_move(&castling, b"e1c1").unwrap().flag, Flag::Castle);
}

#[test]
fn sets_up_positions() {
    let start = parse_position(&words("startpos")).unwrap();
    assert_eq!(start.bit_boards, Board::from_fen(Board::START_POSITION_FEN).unwrap().bit_boards);

    let played = parse_position(&words("startpos moves e2e4 e7e5 g1f3")).unwrap();
    let expected = Board::from_fen("rnbqkbnr/pppp1ppp/8/4p3/4P3/5N2/PPPP1PPP/RNBQKB1R b KQkq - 1 2").unwrap();
    assert_eq!(played.bit_boards, expected.bit_boards);
    assert_eq!(played.white_to_move, expected.white_to_move);
    assert_eq!(played.game_state.castling_rights, expected.game_state.castling_rights);

    let from_fen = parse_position(&words("fen 8/P7/8/8/8/8/8/k1K5 w - - 0 1 moves a7a8q")).unwrap();
    assert!(!from_fen.white_to_move);

    assert!(parse_position(&words("startpos moves e2e5")).is_none());
    assert!(parse_position(&words("fen 8/8/8 w - -")).is_none());
    assert!(parse_position(&words("somewhere")).is_none());
}

#[test]
fn reads_go_parameters() {
    let mut parameters = GoParameters::empty();
    assert!(parameters.parse(&words("wtime 1000 btime 2000 winc 10 binc 20 depth 6 ponder")));
    assert_eq!(parameters.white_time, Some(1000));
    assert_eq!(parameters.black_time, Some(2000));
    assert_eq!(parameters.white_increment, Some(10));
    assert_eq!(parameters.black_increment, Some(20));
    assert_eq!(parameters.depth, Some(6));
    assert!(parameters.ponder);

    let mut bad = GoParameters::empty();
    assert!(!bad.parse(&words("depth")));
    let mut unknown = GoParameters::empty();
    assert!(!unknown.parse(&words("sideways 5")));
}

#[test]
fn depth_asked_for_limits_the_search() {
    let board = Board::from_fen(Board::START_POSITION_FEN).unwrap();
    let mut search = Search::new(board, megabytes_to_capacity(1));
    let mut parameters = GoParameters::empty();
    assert!(parameters.parse(&words("depth 2")));
    let time_manager = time_manager_for(&parameters, true, &search);
    let mut infos = Vec::new();
    let (depth, _) = search.iterative_deepening(&time_manager, &mut infos);
    assert_eq!(depth, 2);
}

#[test]
fn commands_are_named_by_their_word() {
    assert_eq!(command_of(b"isready"), Some(UciCommand::IsReady));
    assert_eq!(command_of(b"go"), Some(UciCommand::Go));
    assert_eq!(command_of(b"ucinewgame"), Some(UciCommand::UciNewGame));
    assert_eq!(command_of(b"quit"), Some(UciCommand::Quit));
    assert_eq!(command_of(b"Go"), None);
    assert_eq!(command_of(b""), None);
}

use encrustant::board::Board;
use encrustant::perft::{perft, perft_root};

/// Positions with known perft counts: (depth, expected count, position).
const TEST_FENS: [(u16, u64, &str); 8] = [
    (3, 8902, "rnbqkbnr/pppppppp/8/8/8/8/PPPPPPPP/RNBQKBNR w KQkq - 0 1"),
    (2, 2039, "r3k2r/p1ppqpb1/bn2pnp1/3PN3/1p2P3/2N2Q1p/PPPBBPPP/R3K2R w KQkq - 0 1"),
    (3, 2812, "8/2p5/3p4/KP5r/1R3p1k/8/4P1P1/8 w - - 0 1"),
    (2, 264, "r3k2r/Pppp1ppp/1b3nbN/nP6/BBP1P3/q4N2/Pp1P2PP/R2Q1RK1 w kq - 0 1"),
    (2, 1486, "rnbq1k1r/pp1Pbppp/2p5/8/2B5/8/PPP1NnPP/RNBQK2R w KQ - 1 8"),
    (2, 2079, "r4rk1/1pp1qppp/p1np1n2/2b1p1B1/2B1P1b1/P1NP1N2/1PP1QPPP/R4RK1 w - - 0 10"),
    (1, 48, "r3k2r/p1ppqpb1/bn2pnp1/3PN3/1p2P3/2N2Q1p/PPPBBPPP/R3K2R w KQkq - 0 1"),
    (1, 20, "rnbqkbnr/pppppppp/8/8/8/8/PPPPPPPP/RNBQKBNR w KQkq - 0 1"),
];

fn debug_perft(board: &mut Board, depth: u16, expected_move_count: u64) {
    let (move_count, per_move) = perft_root(board, depth);
    for (move_data, count) in &per_move {
        println!("{:?}: {}", move_data, count);
    }
    if move_count == expected_move_count {
        println!("Nodes searched: {move_count}");
    } else {
        panic!("Expected {expected_move_count} got {move_count}")
    }
}

#[test]
fn test_perft() {
    let mut fens = TEST_FENS;
    fens.sort_by_key(|v| v.1);
    for (depth, expected_move_count, fen) in fens {
        let mut board = Board::from_fen(fen).unwrap();

        println!("{fen}");
        debug_perft(&mut board, depth, expected_move_count);
        println!();
    }
}

#[test]
fn perft_of_depth_zero_is_one() {
    let mut board = Board::from_fen(Board::START_POSITION_FEN).unwrap();
    assert_eq!(perft(&mut board, 0), 1);
}

#[test]
fn perft_leaves_the_board_unchanged() {
    let mut board = Board::from_fen(Board::START_POSITION_FEN).unwrap();
    let before = board;
    assert_eq!(perft(&mut board, 2), 400);
    assert_eq!(board.bit_boards, before.bit_boards);
    assert_eq!(board.white_to_move, before.white_to_move);
    assert_eq!(board.game_state, before.game_state);
}

#[test]
fn perft_root_reports_each_move() {
    let mut board = Board::from_fen(Board::START_POSITION_FEN).unwrap();
    let (total, per_move) = perft_root(&mut board, 2);
    assert_eq!(total, 400);
    assert_eq!(per_move.len(), 20);
    for (_, count) in per_move {
        assert_eq!(count, 20);
    }
}

#[test]
fn deeper_perft_counts() {
    for (depth, expected, fen) in [
        (3, 97862, "r3k2r/p1ppqpb1/bn2pnp1/3PN3/1p2P3/2N2Q1p/PPPBBPPP/R3K2R w KQkq - 0 1"),
        (4, 43238, "8/2p5/3p4/KP5r/1R3p1k/8/4P1P1/8 w - - 0 1"),
        (3, 9467, "r3k2r/Pppp1ppp/1b3nbN/nP6/BBP1P3/q4N2/Pp1P2PP/R2Q1RK1 w kq - 0 1"),
        (3, 62379, "rnbq1k1r/pp1Pbppp/2p5/8/2B5/8/PPP1NnPP/RNBQK2R w KQ - 1 8"),
        (3, 89890, "r4rk1/1pp1qppp/p1np1n2/2b1p1B1/2B1P1b1/P1NP1N2/1PP1QPPP/R4RK1 w - - 0 10"),
    ] {
        let mut board = Board::from_fen(fen).unwrap();
        assert_eq!(perft(&mut board, depth), expected, "{fen}");
    }
}

use encrustant::bit_board::BitBoard;
use encrustant::board::Board;
use encrustant::eval_data::{END_GAME_PIECE_SQUARE_TABLES, MIDDLE_GAME_PIECE_SQUARE_TABLES, PHASE_WEIGHTS};
use encrustant::evaluation::Eval;
use encrustant::piece::Piece;
use encrustant::tuning::{get_active, PARAMETER_COUNT};

fn count_both(board: &Board, white: Piece, black: Piece) -> f64 {
    f64::from(BitBoard(board.get_bit_board(white).0 | board.get_bit_board(black).0).count())
}

fn piece_counts(board: &Board) -> [f64; 5] {
    [
        count_both(board, Piece::WhitePawn, Piece::BlackPawn),
        count_both(board, Piece::WhiteKnight, Piece::BlackKnight),
        count_both(board, Piece::WhiteBishop, Piece::BlackBishop),
        count_both(board, Piece::WhiteRook, Piece::BlackRook),
        count_both(board, Piece::WhiteQueen, Piece::BlackQueen),
    ]
}

fn phase_of(counts: &[f64; 5], phase_weights: &[f64; 5]) -> f64 {
    let total_phase = phase_weights[4].mul_add(
        2.0,
        phase_weights[3].mul_add(
            4.0,
            phase_weights[2].mul_add(4.0, phase_weights[0].mul_add(16.0, phase_weights[1] * 4.0)),
        ),
    );
    let mut phase = 0.0;
    for (piece_index, count) in counts.iter().enumerate() {
        phase += phase_weights[piece_index] * count;
    }
    phase.min(total_phase) / total_phase
}

fn float_evaluation(active: &[Vec<u16>; 2], parameters: &[(f64, f64)], phase: f64) -> f64 {
    let (mut mid_score, mut end_score) = (0.0, 0.0);
    for &used_index in &active[0] {
        mid_score += parameters[usize::from(used_index)].0;
        end_score += parameters[usize::from(used_index)].1;
    }
    for &used_index in &active[1] {
        mid_score -= parameters[usize::from(used_index)].0;
        end_score -= parameters[usize::from(used_index)].1;
    }
    phase.mul_add(mid_score, (1.0 - phase) * end_score)
}

#[test]
fn test_evaluation() {
    for test_position in [
        "rnbq1bnr/pppp1ppp/8/4k3/4P3/8/PPPPKPPP/RNBQ1B1R w - - 0 5",
        "8/8/8/3K4/8/8/8/7k w - - 0 1",
        "8/8/3k4/4r3/8/8/3Q4/2K5 b - - 0 1",
    ] {
        let board = Board::from_fen(test_position).unwrap();
        let true_eval = Eval::evaluate(&board) * if board.white_to_move { 1 } else { -1 };

        let active = get_active(&board);
        let counts = piece_counts(&board);

        let mut parameters = [(0.0, 0.0); PARAMETER_COUNT];
        for index in 0..PARAMETER_COUNT {
            parameters[index] = (
                MIDDLE_GAME_PIECE_SQUARE_TABLES[index].into(),
                END_GAME_PIECE_SQUARE_TABLES[index].into(),
            );
        }
        let mut phase_weights = [0.0; 5];
        for (index, value) in PHASE_WEIGHTS.iter().enumerate() {
            phase_weights[index] = (*value).into();
        }
        let phase = phase_of(&counts, &phase_weights);
        assert_eq!(float_evaluation(&active, &parameters, phase) as i32, true_eval);
    }
}

#[test]
fn start_position_is_balanced() {
    let board = Board::from_fen(Board::START_POSITION_FEN).unwrap();
    assert_eq!(Eval::evaluate(&board), 0);
}

#[test]
fn two_kings_are_worth_their_end_game_squares() {
    // No piece but the kings: the phase is 0 and the score is the end game one.
    let board = Board::from_fen("8/8/8/3K4/8/8/8/7k w - - 0 1").unwrap();
    let white = i32::from(END_GAME_PIECE_SQUARE_TABLES[5 * 64 + 27]);
    let black = i32::from(END_GAME_PIECE_SQUARE_TABLES[5 * 64 + 7]);
    assert_eq!(Eval::evaluate(&board), white - black);
    let black_to_move = Board::from_fen("8/8/8/3K4/8/8/8/7k b - - 0 1").unwrap();
    assert_eq!(Eval::evaluate(&black_to_move), black - white);
}

#[test]
fn raw_sums_of_a_lone_pawn() {
    let board = Board::from_fen("4k3/8/8/8/8/8/4P3/4K3 w - - 0 1").unwrap();
    let (middle, end) = Eval::raw_evaluate(&board);
    // e2 seen from White's side is e7 (index 52); e8 for Black is index 60.
    let expected_middle = i32::from(MIDDLE_GAME_PIECE_SQUARE_TABLES[52])
        + i32::from(MIDDLE_GAME_PIECE_SQUARE_TABLES[5 * 64 + 60])
        - i32::from(MIDDLE_GAME_PIECE_SQUARE_TABLES[5 * 64 + 60]);
    let expected_end = i32::from(END_GAME_PIECE_SQUARE_TABLES[52])
        + i32::from(END_GAME_PIECE_SQUARE_TABLES[5 * 64 + 60])
        - i32::from(END_GAME_PIECE_SQUARE_TABLES[5 * 64 + 60]);
    assert_eq!((middle, end), (expected_middle, expected_end));
}

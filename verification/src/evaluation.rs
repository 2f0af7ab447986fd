//! Static evaluation: piece square tables blended by game phase.

use vstd::prelude::*;
use crate::square::{Square, flipped_index};
use crate::piece::{Piece, piece_index, piece_kind, piece_is_white};
use crate::board::{Board, BoardView};
use crate::eval_data::{MIDDLE_GAME_PIECE_SQUARE_TABLES, END_GAME_PIECE_SQUARE_TABLES, PHASE_WEIGHTS};
use crate::search::move_ordering::div_toward_zero;

verus! {

/// Evaluation score, in hundredths of a pawn, positive when good for the side it is for.
pub type Score = i32;

/// Table entry of a piece kind on a square, White's side of the board at the bottom.
pub open spec fn table_position(piece: Piece, i: int) -> int {
    if piece_is_white(piece) {
        piece_kind(piece) * 64 + flipped_index(i)
    } else {
        piece_kind(piece) * 64 + i
    }
}

/// Middle game value of what stands on square `i`, positive for White.
pub open spec fn middle_game_value(square: Option<Piece>, i: int) -> int {
    match square {
        Some(piece) => {
            let value = MIDDLE_GAME_PIECE_SQUARE_TABLES@[table_position(piece, i)] as int;
            if piece_is_white(piece) {
                value
            } else {
                -value
            }
        },
        None => 0,
    }
}

/// End game value of what stands on square `i`, positive for White.
pub open spec fn end_game_value(square: Option<Piece>, i: int) -> int {
    match square {
        Some(piece) => {
            let value = END_GAME_PIECE_SQUARE_TABLES@[table_position(piece, i)] as int;
            if piece_is_white(piece) {
                value
            } else {
                -value
            }
        },
        None => 0,
    }
}

/// Phase weight of what stands on a square (kings and empty squares weigh nothing).
pub open spec fn phase_value(square: Option<Piece>, weights: Seq<i32>) -> int {
    match square {
        Some(piece) => if piece_kind(piece) < 5 {
            weights[piece_kind(piece)] as int
        } else {
            0
        },
        None => 0,
    }
}

/// Sum of the middle game values of the first `n` squares.
pub open spec fn middle_game_sum(squares: Seq<Option<Piece>>, n: int) -> int
    decreases n,
{
    if n <= 0 {
        0
    } else {
        middle_game_sum(squares, n - 1) + middle_game_value(squares[n - 1], n - 1)
    }
}

/// Sum of the end game values of the first `n` squares.
pub open spec fn end_game_sum(squares: Seq<Option<Piece>>, n: int) -> int
    decreases n,
{
    if n <= 0 {
        0
    } else {
        end_game_sum(squares, n - 1) + end_game_value(squares[n - 1], n - 1)
    }
}

/// Sum of the phase weights of the first `n` squares.
pub open spec fn phase_sum(squares: Seq<Option<Piece>>, weights: Seq<i32>, n: int) -> int
    decreases n,
{
    if n <= 0 {
        0
    } else {
        phase_sum(squares, weights, n - 1) + phase_value(squares[n - 1], weights)
    }
}

/// Phase of the starting position: 16 pawns, 4 knights, bishops and rooks, 2 queens.
pub open spec fn total_phase(weights: Seq<i32>) -> int {
    weights[0] * 16 + weights[1] * 4 + weights[2] * 4 + weights[3] * 4 + weights[4] * 2
}

/// Phase of a board: its weight of pieces, at most that of the starting position.
pub open spec fn board_phase(squares: Seq<Option<Piece>>, weights: Seq<i32>) -> int {
    let phase = phase_sum(squares, weights, 64);
    if phase < total_phase(weights) {
        phase
    } else {
        total_phase(weights)
    }
}

/// Blend of middle and end game scores by phase.
pub open spec fn blended(phase: int, total_phase: int, middle_game: int, end_game: int) -> int {
    div_toward_zero(middle_game * phase + end_game * (total_phase - phase), total_phase)
}

/// Evaluation of a board for the side to move.
pub open spec fn evaluation(v: BoardView) -> int {
    let weights = PHASE_WEIGHTS@;
    let white_score = blended(
        board_phase(v.squares, weights),
        total_phase(weights),
        middle_game_sum(v.squares, 64),
        end_game_sum(v.squares, 64),
    );
    if v.white_to_move {
        white_score
    } else {
        -white_score
    }
}

/// Each square adds at most one table value to a sum.
pub proof fn lemma_sum_bounds(squares: Seq<Option<Piece>>, weights: Seq<i32>, n: int)
    requires
        0 <= n <= squares.len(),
        weights.len() == 5,
        forall|k: int| 0 <= k < 5 ==> -0x100_0000 <= #[trigger] weights[k] <= 0x100_0000,
    ensures
        -32768 * n <= middle_game_sum(squares, n) <= 32768 * n,
        -32768 * n <= end_game_sum(squares, n) <= 32768 * n,
        -0x100_0000 * n <= phase_sum(squares, weights, n) <= 0x100_0000 * n,
    decreases n,
{
    if n > 0 {
        lemma_sum_bounds(squares, weights, n - 1);
    }
}

/// Changing one square changes each sum by the difference of its values there.
pub proof fn lemma_sum_update(squares: Seq<Option<Piece>>, weights: Seq<i32>, k: int, content: Option<Piece>, n: int)
    requires
        0 <= k < squares.len(),
        0 <= n <= squares.len(),
    ensures
        middle_game_sum(squares.update(k, content), n) == middle_game_sum(squares, n) + if k < n {
            middle_game_value(content, k) - middle_game_value(squares[k], k)
        } else {
            0
        },
        end_game_sum(squares.update(k, content), n) == end_game_sum(squares, n) + if k < n {
            end_game_value(content, k) - end_game_value(squares[k], k)
        } else {
            0
        },
        phase_sum(squares.update(k, content), weights, n) == phase_sum(squares, weights, n) + if k < n {
            phase_value(content, weights) - phase_value(squares[k], weights)
        } else {
            0
        },
    decreases n,
{
    if n > 0 {
        lemma_sum_update(squares, weights, k, content, n - 1);
    }
}

/// Evaluation functions.
pub struct Eval;

impl Eval {
    /// Middle and end game values of a piece kind (0 to 5) on a square of the tables.
    pub fn get_piece_value(piece_index: usize, square_index: usize) -> (values: (i16, i16))
        requires
            piece_index < 6,
            square_index < 64,
        ensures
            values.0 == MIDDLE_GAME_PIECE_SQUARE_TABLES@[piece_index * 64 + square_index],
            values.1 == END_GAME_PIECE_SQUARE_TABLES@[piece_index * 64 + square_index],
    {
        let index = piece_index * 64 + square_index;
        (MIDDLE_GAME_PIECE_SQUARE_TABLES[index], END_GAME_PIECE_SQUARE_TABLES[index])
    }

    /// Middle and end game values of a piece on a square, positive for White.
    pub fn square_values(piece: Piece, square: Square) -> (values: (i32, i32))
        requires
            square.is_valid(),
        ensures
            values.0 == middle_game_value(Some(piece), square.0 as int),
            values.1 == end_game_value(Some(piece), square.0 as int),
            -32768 <= values.0 <= 32768,
            -32768 <= values.1 <= 32768,
    {
        let white = piece.is_white();
        let index = piece.index();
        let kind = if white {
            index
        } else {
            index - 6
        };
        let actual_square = if white {
            square.flip()
        } else {
            square
        };
        let (middle_game_value, end_game_value) = Eval::get_piece_value(kind, actual_square.usize());
        if white {
            (middle_game_value as i32, end_game_value as i32)
        } else {
            (-(middle_game_value as i32), -(end_game_value as i32))
        }
    }

    /// Sums of middle and end game values over the board, positive for White.
    pub fn raw_evaluate(board: &Board) -> (scores: (Score, Score))
        ensures
            scores.0 == middle_game_sum(board@.squares, 64),
            scores.1 == end_game_sum(board@.squares, 64),
    {
        let mut middle_game: i32 = 0;
        let mut end_game: i32 = 0;
        let mut index: u8 = 0;
        while index < 64
            invariant
                index <= 64,
                middle_game == middle_game_sum(board@.squares, index as int),
                end_game == end_game_sum(board@.squares, index as int),
            decreases 64 - index,
        {
            proof {
                lemma_sum_bounds(board@.squares, PHASE_WEIGHTS@, index as int);
            }
            let square = Square::from_index(index);
            if let Some(piece) = board.piece_at(square) {
                let (middle_game_value, end_game_value) = Eval::square_values(piece, square);
                middle_game = middle_game + middle_game_value;
                end_game = end_game + end_game_value;
            }
            index = index + 1;
        }
        (middle_game, end_game)
    }

    /// Weight of the pieces on the board (kings excluded), at most that of
    /// the starting position.
    pub fn get_phase(board: &Board, phases: &[i32; 5]) -> (phase: i32)
        requires
            forall|k: int| 0 <= k < 5 ==> -0x100_0000 <= #[trigger] phases@[k] <= 0x100_0000,
        ensures
            phase == board_phase(board@.squares, phases@),
    {
        let mut phase: i32 = 0;
        let mut index: u8 = 0;
        while index < 64
            invariant
                index <= 64,
                forall|k: int| 0 <= k < 5 ==> -0x100_0000 <= #[trigger] phases@[k] <= 0x100_0000,
                phase == phase_sum(board@.squares, phases@, index as int),
            decreases 64 - index,
        {
            proof {
                lemma_sum_bounds(board@.squares, phases@, index as int);
            }
            let square = Square::from_index(index);
            if let Some(piece) = board.piece_at(square) {
                let kind = piece.index() % 6;
                if kind < 5 {
                    phase = phase + phases[kind];
                }
            }
            index = index + 1;
        }
        let total = phases[0] * 16 + phases[1] * 4 + phases[2] * 4 + phases[3] * 4 + phases[4] * 2;
        if phase < total {
            phase
        } else {
            total
        }
    }

    /// Blends middle and end game scores by phase: all middle game at the
    /// full phase, all end game at phase zero.
    pub fn calculate_score(phase: i32, total_phase: i32, middle_game: Score, end_game: Score) -> (score: Score)
        requires
            total_phase > 0,
            -0x100_0000 <= phase <= total_phase <= 0x100_0000,
            i32::MIN <= blended(phase as int, total_phase as int, middle_game as int, end_game as int) <= i32::MAX,
        ensures
            score == blended(phase as int, total_phase as int, middle_game as int, end_game as int),
    {
        let p = phase as i64;
        let t = total_phase as i64;
        let m = middle_game as i64;
        let e = end_game as i64;
        assert(-0x8000_0000 * 0x8000_0000 <= m * p <= 0x8000_0000 * 0x8000_0000) by (nonlinear_arith)
            requires
                -0x8000_0000 <= m <= 0x8000_0000,
                -0x8000_0000 <= p <= 0x8000_0000,
        ;
        assert(-0x8000_0000 * 0x200_0000 <= e * (t - p) <= 0x8000_0000 * 0x200_0000) by (nonlinear_arith)
            requires
                -0x8000_0000 <= e <= 0x8000_0000,
                0 <= t - p <= 0x200_0000,
        ;
        let blend = (m * p + e * (t - p)) / t;
        blend as i32
    }

    /// Evaluation of the board for the side to move.
    pub fn evaluate(board: &Board) -> (score: Score)
        ensures
            score == evaluation(board@),
    {
        let (middle_game, end_game) = Eval::raw_evaluate(board);
        let phase = Eval::get_phase(board, &PHASE_WEIGHTS);
        proof {
            lemma_sum_bounds(board@.squares, PHASE_WEIGHTS@, 64);
            lemma_blended_bounds(board@.squares);
        }
        let score = Eval::calculate_score(phase, 2128, middle_game, end_game);
        assert(score == blended(
            board_phase(board@.squares, PHASE_WEIGHTS@),
            total_phase(PHASE_WEIGHTS@),
            middle_game_sum(board@.squares, 64),
            end_game_sum(board@.squares, 64),
        ));
        if board.white_to_move {
            score
        } else {
            -score
        }
    }
}

/// The evaluation of a board with the engine's phase weights stays within ±2²³.
pub proof fn lemma_blended_bounds(squares: Seq<Option<Piece>>)
    requires
        squares.len() == 64,
    ensures
        total_phase(PHASE_WEIGHTS@) == 2128,
        -0x100_0000 <= board_phase(squares, PHASE_WEIGHTS@) <= 2128,
        -0x80_0000 <= blended(
            board_phase(squares, PHASE_WEIGHTS@),
            2128,
            middle_game_sum(squares, 64),
            end_game_sum(squares, 64),
        ) <= 0x80_0000,
{
    let weights = PHASE_WEIGHTS@;
    lemma_phase_weights();
    lemma_phase_bounds(squares, 64);
    lemma_sum_bounds(squares, weights, 64);
    let phase = board_phase(squares, weights);
    let m = middle_game_sum(squares, 64);
    let e = end_game_sum(squares, 64);
    assert(-640 <= phase <= 2128);
    let x = m * phase + e * (2128 - phase);
    assert(-0x20_0000 * 4896 <= x <= 0x20_0000 * 4896) by (nonlinear_arith)
        requires
            -640 <= phase <= 2128,
            -0x20_0000 <= m <= 0x20_0000,
            -0x20_0000 <= e <= 0x20_0000,
            x == m * phase + e * (2128 - phase),
    {
        assert(-0x20_0000 * 2128 <= m * phase <= 0x20_0000 * 2128);
        assert(-0x20_0000 * 2768 <= e * (2128 - phase) <= 0x20_0000 * 2768);
    }
}

/// The engine's phase weights.
pub proof fn lemma_phase_weights()
    ensures
        PHASE_WEIGHTS@ == seq![-10i32, 88i32, 91i32, 186i32, 414i32],
{
    assert(PHASE_WEIGHTS@ =~= seq![-10i32, 88i32, 91i32, 186i32, 414i32]);
}

/// With the engine's weights, pawns weigh -10 and other pieces at most 414.
proof fn lemma_phase_bounds(squares: Seq<Option<Piece>>, n: int)
    requires
        0 <= n <= squares.len(),
    ensures
        -10 * n <= phase_sum(squares, PHASE_WEIGHTS@, n) <= 414 * n,
    decreases n,
{
    lemma_phase_weights();
    if n > 0 {
        lemma_phase_bounds(squares, n - 1);
    }
}

} // verus!

//! The evaluation parameters a position uses, for tuning the piece square tables.

use vstd::prelude::*;
use crate::square::{Square, flipped_index};
use crate::piece::{Piece, piece_of};
use crate::board::Board;

verus! {

/// Number of evaluation parameters: one per piece kind and square.
pub const PARAMETER_COUNT: usize = 384;

/// The parameter a piece of a side on a square uses: its kind times 64 plus
/// the square, seen from White's side for White.
pub open spec fn parameter(kind: int, square: int, white: bool) -> int {
    kind * 64 + if white {
        flipped_index(square)
    } else {
        square
    }
}

/// Parameters used by the side's pieces among the first `n` pairs of piece
/// kind and square, taken kind by kind, squares in increasing order.
pub open spec fn active_upto(squares: Seq<Option<Piece>>, white: bool, n: int) -> Seq<u16>
    decreases n,
{
    if n <= 0 {
        Seq::empty()
    } else {
        let previous = active_upto(squares, white, n - 1);
        let kind = (n - 1) / 64;
        let square = (n - 1) % 64;
        if squares[square] == Some(piece_of(kind, white)) {
            previous.push(parameter(kind, square, white) as u16)
        } else {
            previous
        }
    }
}

/// The parameters White's pieces and Black's pieces use (White's count
/// toward the evaluation, Black's against it).
pub fn get_active(board: &Board) -> (active: [Vec<u16>; 2])
    ensures
        active[0]@ == active_upto(board@.squares, true, PARAMETER_COUNT as int),
        active[1]@ == active_upto(board@.squares, false, PARAMETER_COUNT as int),
{
    let white = active_parameters(board, true);
    let black = active_parameters(board, false);
    [white, black]
}

/// The parameters one side's pieces use.
fn active_parameters(board: &Board, white: bool) -> (active: Vec<u16>)
    ensures
        active@ == active_upto(board@.squares, white, PARAMETER_COUNT as int),
{
    let mut active: Vec<u16> = Vec::new();
    let mut kind: usize = 0;
    while kind < 6
        invariant
            kind <= 6,
            active@ == active_upto(board@.squares, white, (kind * 64) as int),
        decreases 6 - kind,
    {
        let piece = Piece::from_index(if white { kind } else { kind + 6 });
        let mut square: u8 = 0;
        while square < 64
            invariant
                kind < 6,
                square <= 64,
                piece == piece_of(kind as int, white),
                active@ == active_upto(board@.squares, white, (kind * 64 + square) as int),
            decreases 64 - square,
        {
            proof {
                assert((kind * 64 + square) / 64 == kind);
                assert((kind * 64 + square) % 64 == square);
                assert(board@.squares[square as int] == board.spec_piece_at(square as int));
            }
            if board.piece_at(Square(square)) == Some(piece) {
                let index = if white {
                    Square(square).flip().0 as usize
                } else {
                    square as usize
                };
                active.push((kind * 64 + index) as u16);
            }
            square = square + 1;
        }
        kind = kind + 1;
    }
    active
}

/// Outcome a position is labelled with, from the search's score.
#[derive(Clone, Copy, PartialEq, Eq, Structural, Debug)]
pub enum WDL {
    WhiteWin,
    BlackWin,
    Draw,
}

/// Score from White's side beyond which a position counts as won.
pub const WIN_THRESHOLD: i32 = 100;

/// The outcome a score for the side to move stands for: a win for White
/// when the score from White's side is above the threshold, a win for Black
/// when it is below minus the threshold, a draw otherwise.
pub fn label_score(best_score: i32, white_to_move: bool) -> (label: WDL)
    requires
        best_score > i32::MIN,
    ensures
        ({
            let white_score = if white_to_move {
                best_score as int
            } else {
                -best_score
            };
            label == if white_score > WIN_THRESHOLD {
                WDL::WhiteWin
            } else if white_score < -WIN_THRESHOLD {
                WDL::BlackWin
            } else {
                WDL::Draw
            }
        }),
{
    let normalised_score = if white_to_move {
        best_score
    } else {
        -best_score
    };
    if normalised_score > WIN_THRESHOLD {
        WDL::WhiteWin
    } else if normalised_score < -WIN_THRESHOLD {
        WDL::BlackWin
    } else {
        WDL::Draw
    }
}

} // verus!

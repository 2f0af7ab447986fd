//! Zobrist keys: a 64-bit hash of a position, the exclusive or of one
//! pseudo-random number per feature of the position (each piece on its
//! square, the side to move, the castling rights, the en passant file).

use vstd::prelude::*;
use crate::square::{Square, file_of};
use crate::piece::{Piece, piece_index, lemma_piece_index};
use crate::board::{Board, BoardView};

verus! {

/// Hash of a position.
#[derive(Clone, Copy, PartialEq, Eq, Structural, Debug, Hash)]
pub struct Zobrist(pub u64);

/// Scrambles a number into a pseudo-random one (the finaliser of the
/// SplitMix64 generator).
pub open spec fn scramble(x: u64) -> u64 {
    let z = x.wrapping_add(0x9E37_79B9_7F4A_7C15);
    let z = (z ^ (z >> 30u64)).wrapping_mul(0xBF58_476D_1CE4_E5B9);
    let z = (z ^ (z >> 27u64)).wrapping_mul(0x94D0_49BB_1331_11EB);
    z ^ (z >> 31u64)
}

/// Number of the random value for a piece on a square.
pub open spec fn piece_feature(piece: Piece, square: int) -> int {
    piece_index(piece) * 64 + square
}

/// Number of the random value for Black to move.
pub const SIDE_FEATURE: u64 = 768;

/// Number of the first random value for castling rights (one per index 0 to 15).
pub const CASTLING_FEATURE: u64 = 769;

/// Number of the first random value for an en passant file (one per file).
pub const EN_PASSANT_FEATURE: u64 = 785;

/// Key of the pieces on the first `n` squares.
pub open spec fn squares_key(squares: Seq<Option<Piece>>, n: int) -> u64
    decreases n,
{
    if n <= 0 {
        0
    } else {
        squares_key(squares, n - 1) ^ match squares[n - 1] {
            Some(piece) => scramble(piece_feature(piece, n - 1) as u64),
            None => 0u64,
        }
    }
}

/// Key of a position.
pub open spec fn zobrist_key(v: BoardView) -> u64 {
    let side = if v.white_to_move {
        0u64
    } else {
        scramble(SIDE_FEATURE)
    };
    let castling = scramble((CASTLING_FEATURE + v.state.castling_rights.spec_index()) as u64);
    let en_passant = match v.state.en_passant_square {
        Some(square) => scramble((EN_PASSANT_FEATURE + file_of(square.0 as int)) as u64),
        None => 0u64,
    };
    squares_key(v.squares, 64) ^ side ^ castling ^ en_passant
}

/// Scrambles a number.
pub fn scramble_exec(x: u64) -> (scrambled: u64)
    ensures
        scrambled == scramble(x),
{
    let z = x.wrapping_add(0x9E37_79B9_7F4A_7C15);
    let z = (z ^ (z >> 30u64)).wrapping_mul(0xBF58_476D_1CE4_E5B9);
    let z = (z ^ (z >> 27u64)).wrapping_mul(0x94D0_49BB_1331_11EB);
    z ^ (z >> 31u64)
}

impl Zobrist {
    /// The key of the position on the board.
    pub fn of_board(board: &Board) -> (key: Zobrist)
        ensures
            key.0 == zobrist_key(board@),
    {
        let mut key: u64 = 0;
        let mut i: u8 = 0;
        while i < 64
            invariant
                i <= 64,
                key == squares_key(board@.squares, i as int),
            decreases 64 - i,
        {
            let ghost before = key;
            proof {
                assert(board@.squares[i as int] == board.spec_piece_at(i as int));
            }
            let value = match board.piece_at(Square(i)) {
                Some(piece) => {
                    let index = piece.index();
                    proof {
                        lemma_piece_index(piece, 0);
                        assert(piece_feature(piece, i as int) == index * 64 + i);
                    }
                    scramble_exec((index as u64) * 64 + i as u64)
                },
                None => 0,
            };
            key = key ^ value;
            i = i + 1;
            proof {
                assert(key == squares_key(board@.squares, i as int));
            }
        }
        let side = if board.white_to_move {
            0
        } else {
            scramble_exec(SIDE_FEATURE)
        };
        let castling = scramble_exec(CASTLING_FEATURE + board.game_state.castling_rights.index() as u64);
        let en_passant = match board.game_state.en_passant_square {
            Some(square) => scramble_exec(EN_PASSANT_FEATURE + square.file() as u64),
            None => 0,
        };
        Zobrist(key ^ side ^ castling ^ en_passant)
    }
}

} // verus!

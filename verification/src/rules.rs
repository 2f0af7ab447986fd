//! The rules of chess over the model of a board: which squares a piece
//! attacks, which moves are legal, and the legal moves in a fixed order.

use vstd::prelude::*;
use crate::square::{Square, rank_of, file_of};
use crate::piece::{Piece, piece_kind, piece_is_white, piece_of};
use crate::board::{BoardView, of_side};
use crate::move_data::{Flag, Move, flag_from_index};
use crate::maker::made;

verus! {

pub open spec fn abs(x: int) -> int {
    if x < 0 {
        -x
    } else {
        x
    }
}

pub open spec fn sign(x: int) -> int {
    if x > 0 {
        1
    } else if x < 0 {
        -1
    } else {
        0
    }
}

/// `s * k` for a sign `s`.
pub open spec fn scaled(s: int, k: int) -> int {
    if s > 0 {
        k
    } else if s < 0 {
        -k
    } else {
        0
    }
}

/// Ranks from `from` up to `to`.
pub open spec fn rank_diff(from: int, to: int) -> int {
    rank_of(to) - rank_of(from)
}

/// Files from `from` right to `to`.
pub open spec fn file_diff(from: int, to: int) -> int {
    file_of(to) - file_of(from)
}

/// Number of steps of a straight or diagonal line from `from` to `to`.
pub open spec fn distance(from: int, to: int) -> int {
    let dr = abs(rank_diff(from, to));
    let df = abs(file_diff(from, to));
    if dr > df {
        dr
    } else {
        df
    }
}

/// The square `k` steps from `from` along the line toward `to`.
pub open spec fn ray_square(from: int, to: int, k: int) -> int {
    from + 8 * scaled(sign(rank_diff(from, to)), k) + scaled(sign(file_diff(from, to)), k)
}

/// No piece stands strictly between `from` and `to` on their line.
pub open spec fn path_clear(squares: Seq<Option<Piece>>, from: int, to: int) -> bool {
    forall|k: int| 1 <= k < distance(from, to) ==> #[trigger] squares[ray_square(from, to, k)] is None
}

/// Along a rank or a file.
pub open spec fn straight_line(from: int, to: int) -> bool {
    (rank_diff(from, to) == 0) != (file_diff(from, to) == 0)
}

/// Along a diagonal.
pub open spec fn diagonal_line(from: int, to: int) -> bool {
    abs(rank_diff(from, to)) == abs(file_diff(from, to)) && rank_diff(from, to) != 0
}

/// A knight's jump.
pub open spec fn knight_jump(from: int, to: int) -> bool {
    let dr = abs(rank_diff(from, to));
    let df = abs(file_diff(from, to));
    (dr == 1 && df == 2) || (dr == 2 && df == 1)
}

/// A king's step.
pub open spec fn king_step(from: int, to: int) -> bool {
    abs(rank_diff(from, to)) <= 1 && abs(file_diff(from, to)) <= 1 && from != to
}

/// Rank direction a pawn of the side moves in.
pub open spec fn forward(white: bool) -> int {
    if white {
        1
    } else {
        -1
    }
}

/// One rank forward and one file aside: how a pawn captures.
pub open spec fn pawn_capture_step(from: int, to: int, white: bool) -> bool {
    rank_diff(from, to) == forward(white) && abs(file_diff(from, to)) == 1
}

/// Whether the piece on `from` attacks `to`.
pub open spec fn attacks(squares: Seq<Option<Piece>>, from: int, to: int) -> bool {
    match squares[from] {
        None => false,
        Some(piece) => {
            let kind = piece_kind(piece);
            if kind == 0 {
                pawn_capture_step(from, to, piece_is_white(piece))
            } else if kind == 1 {
                knight_jump(from, to)
            } else if kind == 2 {
                diagonal_line(from, to) && path_clear(squares, from, to)
            } else if kind == 3 {
                straight_line(from, to) && path_clear(squares, from, to)
            } else if kind == 4 {
                (diagonal_line(from, to) || straight_line(from, to)) && path_clear(squares, from, to)
            } else {
                king_step(from, to)
            }
        },
    }
}

/// Whether a piece of the given side attacks the square.
pub open spec fn attacked(squares: Seq<Option<Piece>>, target: int, by_white: bool) -> bool {
    exists|from: int|
        0 <= from < 64 && of_side(squares[from], by_white) is Some && #[trigger] attacks(squares, from, target)
}

/// Whether the king of the given side is attacked.
pub open spec fn in_check(v: BoardView, white: bool) -> bool {
    exists|k: int|
        0 <= k < 64 && #[trigger] v.squares[k] == Some(piece_of(5, white)) && attacked(v.squares, k, !white)
}

/// Rank on which the side's pawns promote.
pub open spec fn last_rank(white: bool) -> int {
    if white {
        7
    } else {
        0
    }
}

/// A pawn's step or capture onto `to`, ignoring the promotion rank.
pub open spec fn pawn_advance(v: BoardView, from: int, to: int) -> bool {
    let white = v.white_to_move;
    ||| (rank_diff(from, to) == forward(white) && file_diff(from, to) == 0 && v.squares[to] is None)
    ||| (pawn_capture_step(from, to, white) && of_side(v.squares[to], !white) is Some)
}

/// Castling of the side to move from `from` to `to`: rights, empty squares
/// between king and rook, rook in its corner, king not in check and not
/// passing over an attacked square.
pub open spec fn castling_allowed(v: BoardView, from: int, to: int) -> bool {
    let white = v.white_to_move;
    let rights = v.state.castling_rights;
    &&& from == (if white { 4int } else { 60int })
    &&& !attacked(v.squares, from, !white)
    &&& {
        ||| {
            &&& to == from + 2
            &&& (if white { rights.white_king_side } else { rights.black_king_side })
            &&& v.squares[from + 1] is None
            &&& v.squares[from + 2] is None
            &&& v.squares[from + 3] == Some(piece_of(3, white))
            &&& !attacked(v.squares, from + 1, !white)
        }
        ||| {
            &&& to == from - 2
            &&& (if white { rights.white_queen_side } else { rights.black_queen_side })
            &&& v.squares[from - 1] is None
            &&& v.squares[from - 2] is None
            &&& v.squares[from - 3] is None
            &&& v.squares[from - 4] == Some(piece_of(3, white))
            &&& !attacked(v.squares, from - 1, !white)
        }
    }
}

/// Whether the move follows how its piece moves, ignoring whether it leaves
/// the own king attacked.
pub open spec fn pseudo_legal(v: BoardView, m: Move) -> bool {
    let white = v.white_to_move;
    let from = m.from.0 as int;
    let to = m.to.0 as int;
    &&& m.is_valid()
    &&& v.squares.len() == 64
    &&& v.state.wf()
    &&& from != to
    &&& of_side(v.squares[from], white) is Some
    &&& of_side(v.squares[to], white) is None
    &&& match v.squares[from] {
        Some(piece) => {
            let kind = piece_kind(piece);
            match m.flag {
                Flag::Normal => if kind == 0 {
                    pawn_advance(v, from, to) && rank_of(to) != last_rank(white)
                } else if kind == 1 {
                    knight_jump(from, to)
                } else if kind == 2 {
                    diagonal_line(from, to) && path_clear(v.squares, from, to)
                } else if kind == 3 {
                    straight_line(from, to) && path_clear(v.squares, from, to)
                } else if kind == 4 {
                    (diagonal_line(from, to) || straight_line(from, to)) && path_clear(v.squares, from, to)
                } else {
                    king_step(from, to)
                },
                Flag::PawnTwoUp => {
                    &&& kind == 0
                    &&& rank_of(from) == (if white { 1int } else { 6int })
                    &&& to == from + 16 * forward(white)
                    &&& v.squares[from + 8 * forward(white)] is None
                    &&& v.squares[to] is None
                },
                Flag::EnPassant => match v.state.en_passant_square {
                    Some(ep) => {
                        &&& kind == 0
                        &&& to == ep.0
                        &&& pawn_capture_step(from, to, white)
                        &&& v.squares[to] is None
                        &&& v.squares[to - 8 * forward(white)] == Some(piece_of(0, !white))
                    },
                    None => false,
                },
                Flag::Castle => kind == 5 && castling_allowed(v, from, to),
                _ => kind == 0 && pawn_advance(v, from, to) && rank_of(to) == last_rank(white),
            }
        },
        None => false,
    }
}

/// Whether the move is legal: it follows the rules of its piece and does
/// not leave the own king attacked.
pub open spec fn legal(v: BoardView, m: Move) -> bool {
    pseudo_legal(v, m) && !in_check(made(v, m), v.white_to_move)
}

/// Whether the move takes a piece.
pub open spec fn is_capture(v: BoardView, m: Move) -> bool {
    m.flag == Flag::EnPassant || of_side(v.squares[m.to.0 as int], !v.white_to_move) is Some
}

/// The move with number `k`: start square `k / 512`, target square
/// `(k / 8) % 64`, flag `k % 8`.
pub open spec fn move_number(k: int) -> Move {
    Move {
        from: Square((k / 512) as u8),
        to: Square(((k / 8) % 64) as u8),
        flag: flag_from_index(k % 8),
    }
}

/// Whether a move is listed: legal, and a capture when only captures are asked for.
pub open spec fn listed(v: BoardView, m: Move, captures_only: bool) -> bool {
    legal(v, m) && (!captures_only || is_capture(v, m))
}

/// The listed moves among the first `k` move numbers, in number order.
pub open spec fn moves_upto(v: BoardView, captures_only: bool, k: int) -> Seq<Move>
    decreases k,
{
    if k <= 0 {
        Seq::empty()
    } else {
        let previous = moves_upto(v, captures_only, k - 1);
        if listed(v, move_number(k - 1), captures_only) {
            previous.push(move_number(k - 1))
        } else {
            previous
        }
    }
}

/// All legal moves (or all legal captures) of the position, ordered by
/// start square, then target square, then flag.
pub open spec fn legal_moves(v: BoardView, captures_only: bool) -> Seq<Move> {
    moves_upto(v, captures_only, 32768)
}

/// Every move in the list is listed.
pub proof fn lemma_moves_upto_listed(v: BoardView, captures_only: bool, k: int)
    ensures
        forall|i: int|
            0 <= i < moves_upto(v, captures_only, k).len() ==> listed(
                v,
                #[trigger] moves_upto(v, captures_only, k)[i],
                captures_only,
            ),
    decreases k,
{
    if k > 0 {
        lemma_moves_upto_listed(v, captures_only, k - 1);
        let previous = moves_upto(v, captures_only, k - 1);
        assert forall|i: int| 0 <= i < moves_upto(v, captures_only, k).len() implies listed(
            v,
            #[trigger] moves_upto(v, captures_only, k)[i],
            captures_only,
        ) by {
            if i < previous.len() {
                assert(listed(v, previous[i], captures_only));
            }
        }
    }
}

} // verus!

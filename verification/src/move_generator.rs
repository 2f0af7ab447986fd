//! Legal move generation, checked square by square against the rules.

use vstd::prelude::*;
use crate::square::{Square, rank_of, file_of};
use crate::piece::{Piece, piece_kind, piece_is_white, piece_of};
use crate::board::{Board, BoardView, of_side};
use crate::move_data::{Flag, Move, flag_from_index};
use crate::maker::{can_make, made, lemma_can_make_runs};
use crate::rules::{pseudo_legal, legal, listed, is_capture, moves_upto, legal_moves, move_number, pawn_advance, castling_allowed, abs, sign, scaled, rank_diff, file_diff, distance, ray_square, path_clear, straight_line, diagonal_line, attacks, attacked, in_check};

verus! {

/// Along a line, every square up to the far end lies on the board, with
/// the expected rank and file.
proof fn lemma_ray_square(from: int, to: int, k: int)
    requires
        0 <= from < 64,
        0 <= to < 64,
        straight_line(from, to) || diagonal_line(from, to),
        0 <= k <= distance(from, to),
    ensures
        0 <= ray_square(from, to, k) < 64,
        rank_of(ray_square(from, to, k)) == rank_of(from) + scaled(sign(rank_diff(from, to)), k),
        file_of(ray_square(from, to, k)) == file_of(from) + scaled(sign(file_diff(from, to)), k),
        ray_square(from, to, distance(from, to)) == to,
{
    assert(from == 8 * rank_of(from) + file_of(from));
    assert(to == 8 * rank_of(to) + file_of(to));
}

/// Whether no piece stands strictly between two squares on a line.
pub fn path_is_clear(board: &Board, from: Square, to: Square) -> (clear: bool)
    requires
        from.is_valid(),
        to.is_valid(),
        straight_line(from.0 as int, to.0 as int) || diagonal_line(from.0 as int, to.0 as int),
    ensures
        clear == path_clear(board@.squares, from.0 as int, to.0 as int),
{
    let ghost f = from.0 as int;
    let ghost t = to.0 as int;
    let dr: i32 = (to.0 / 8) as i32 - (from.0 / 8) as i32;
    let df: i32 = (to.0 % 8) as i32 - (from.0 % 8) as i32;
    let sr: i32 = if dr > 0 {
        1
    } else if dr < 0 {
        -1
    } else {
        0
    };
    let sf: i32 = if df > 0 {
        1
    } else if df < 0 {
        -1
    } else {
        0
    };
    let adr = if dr < 0 {
        -dr
    } else {
        dr
    };
    let adf = if df < 0 {
        -df
    } else {
        df
    };
    let n = if adr > adf {
        adr
    } else {
        adf
    };
    assert(n == distance(f, t));
    let step = 8 * sr + sf;
    let mut k: i32 = 1;
    let mut position: i32 = from.0 as i32 + step;
    proof {
        lemma_ray_square(f, t, 1);
    }
    while k < n
        invariant
            1 <= k <= n,
            n == distance(f, t),
            step == 8 * sign(rank_diff(f, t)) + sign(file_diff(f, t)),
            position == ray_square(f, t, k as int),
            0 <= position < 64,
            straight_line(f, t) || diagonal_line(f, t),
            f == from.0,
            from.is_valid(),
            to.is_valid(),
            t == to.0,
            forall|j: int| 1 <= j < k ==> #[trigger] board@.squares[ray_square(f, t, j)] is None,
        decreases n - k,
    {
        if board.piece_at(Square(position as u8)).is_some() {
            assert(board@.squares[ray_square(f, t, k as int)] is Some);
            assert(!path_clear(board@.squares, f, t)) by {
                assert(1 <= k < distance(f, t));
            }
            return false;
        }
        proof {
            lemma_ray_square(f, t, k + 1);
        }
        k = k + 1;
        position = position + step;
    }
    true
}

/// Rank and file differences between two squares.
fn differences(from: Square, to: Square) -> (d: (i32, i32))
    requires
        from.is_valid(),
        to.is_valid(),
    ensures
        d.0 == rank_diff(from.0 as int, to.0 as int),
        d.1 == file_diff(from.0 as int, to.0 as int),
        -7 <= d.0 <= 7,
        -7 <= d.1 <= 7,
{
    ((to.0 / 8) as i32 - (from.0 / 8) as i32, (to.0 % 8) as i32 - (from.0 % 8) as i32)
}

fn abs_i32(x: i32) -> (a: i32)
    requires
        -100 <= x <= 100,
    ensures
        a == abs(x as int),
{
    if x < 0 {
        -x
    } else {
        x
    }
}

/// Whether the piece on `from` attacks `to`.
pub fn piece_attacks(board: &Board, from: Square, to: Square) -> (attack: bool)
    requires
        from.is_valid(),
        to.is_valid(),
    ensures
        attack == attacks(board@.squares, from.0 as int, to.0 as int),
{
    let (dr, df) = differences(from, to);
    let adr = abs_i32(dr);
    let adf = abs_i32(df);
    match board.piece_at(from) {
        None => false,
        Some(piece) => {
            let kind = piece.index() % 6;
            let white = piece.is_white();
            if kind == 0 {
                dr == (if white { 1 } else { -1 }) && adf == 1
            } else if kind == 1 {
                (adr == 1 && adf == 2) || (adr == 2 && adf == 1)
            } else if kind == 5 {
                adr <= 1 && adf <= 1 && from.0 != to.0
            } else {
                let diagonal = adr == adf && dr != 0;
                let straight = (dr == 0) != (df == 0);
                let shape = if kind == 2 {
                    diagonal
                } else if kind == 3 {
                    straight
                } else {
                    diagonal || straight
                };
                shape && path_is_clear(board, from, to)
            }
        },
    }
}

/// Whether a piece of the given side attacks the square.
pub fn is_attacked(board: &Board, target: Square, by_white: bool) -> (attacked_: bool)
    requires
        target.is_valid(),
    ensures
        attacked_ == attacked(board@.squares, target.0 as int, by_white),
{
    let mut from: u8 = 0;
    while from < 64
        invariant
            from <= 64,
            target.is_valid(),
            forall|j: int| 0 <= j < from ==> !(of_side(board@.squares[j], by_white) is Some
                && #[trigger] attacks(board@.squares, j, target.0 as int)),
        decreases 64 - from,
    {
        let square = Square(from);
        let own = match board.piece_at(square) {
            Some(piece) => piece.is_white() == by_white,
            None => false,
        };
        if own && piece_attacks(board, square, target) {
            assert(of_side(board@.squares[from as int], by_white) is Some);
            return true;
        }
        from = from + 1;
    }
    false
}

/// Whether the king of the given side is attacked.
pub fn king_in_check(board: &Board, white: bool) -> (check: bool)
    ensures
        check == in_check(board@, white),
{
    let king = if white {
        Piece::WhiteKing
    } else {
        Piece::BlackKing
    };
    let mut k: u8 = 0;
    while k < 64
        invariant
            k <= 64,
            king == piece_of(5, white),
            forall|j: int| 0 <= j < k ==> !(#[trigger] board@.squares[j] == Some(king) && attacked(
                board@.squares,
                j,
                !white,
            )),
        decreases 64 - k,
    {
        let square = Square(k);
        if board.piece_at(square) == Some(king) && is_attacked(board, square, !white) {
            assert(board@.squares[k as int] == Some(king));
            return true;
        }
        k = k + 1;
    }
    false
}

/// A piece is the piece of its own kind and colour.
proof fn lemma_piece_of(piece: Piece)
    ensures
        piece == piece_of(piece_kind(piece), piece_is_white(piece)),
        0 <= piece_kind(piece) < 6,
{
}

/// Whether the pawn on `from` of the side to move can step or capture onto `to`.
fn pawn_advances(board: &Board, from: Square, to: Square) -> (advance: bool)
    requires
        from.is_valid(),
        to.is_valid(),
    ensures
        advance == pawn_advance(board@, from.0 as int, to.0 as int),
{
    let (dr, df) = differences(from, to);
    let white = board.white_to_move;
    let fwd: i32 = if white {
        1
    } else {
        -1
    };
    let target = board.piece_at(to);
    let step = dr == fwd && df == 0 && target.is_none();
    let capture = dr == fwd && (df == 1 || df == -1) && match target {
        Some(piece) => piece.is_white() != white,
        None => false,
    };
    step || capture
}

/// Whether the side to move may castle with its king from `from` to `to`.
fn castling_is_allowed(board: &Board, from: Square, to: Square) -> (allowed: bool)
    requires
        from.is_valid(),
        to.is_valid(),
    ensures
        allowed == castling_allowed(board@, from.0 as int, to.0 as int),
{
    let white = board.white_to_move;
    let rights = board.game_state.castling_rights;
    let home: u8 = if white {
        4
    } else {
        60
    };
    if from.0 != home {
        return false;
    }
    if is_attacked(board, from, !white) {
        return false;
    }
    let rook = if white {
        Piece::WhiteRook
    } else {
        Piece::BlackRook
    };
    if to.0 == from.0 + 2 {
        let right = if white {
            rights.white_king_side
        } else {
            rights.black_king_side
        };
        right && board.piece_at(Square(from.0 + 1)).is_none() && board.piece_at(Square(from.0 + 2)).is_none()
            && board.piece_at(Square(from.0 + 3)) == Some(rook) && !is_attacked(
            board,
            Square(from.0 + 1),
            !white,
        )
    } else if to.0 + 2 == from.0 {
        let right = if white {
            rights.white_queen_side
        } else {
            rights.black_queen_side
        };
        right && board.piece_at(Square(from.0 - 1)).is_none() && board.piece_at(Square(from.0 - 2)).is_none()
            && board.piece_at(Square(from.0 - 3)).is_none() && board.piece_at(Square(from.0 - 4)) == Some(
            rook,
        ) && !is_attacked(board, Square(from.0 - 1), !white)
    } else {
        false
    }
}

/// Whether the move follows how its piece moves.
pub fn is_pseudo_legal(board: &Board, m: &Move) -> (valid: bool)
    ensures
        valid == pseudo_legal(board@, *m),
{
    let from = m.from;
    let to = m.to;
    if !(from.0 < 64 && to.0 < 64) {
        return false;
    }
    let state_wf = match board.game_state.en_passant_square {
        Some(square) => square.0 < 64,
        None => true,
    };
    if !state_wf || from.0 == to.0 {
        return false;
    }
    let white = board.white_to_move;
    let piece = match board.piece_at(from) {
        Some(piece) => piece,
        None => {
            return false;
        },
    };
    if piece.is_white() != white {
        return false;
    }
    if let Some(target) = board.piece_at(to) {
        if target.is_white() == white {
            return false;
        }
    }
    proof {
        lemma_piece_of(piece);
    }
    let kind = piece.index() % 6;
    let (dr, df) = differences(from, to);
    let adr = abs_i32(dr);
    let adf = abs_i32(df);
    let to_rank = to.0 / 8;
    let last: u8 = if white {
        7
    } else {
        0
    };
    match m.flag {
        Flag::Normal => {
            if kind == 0 {
                pawn_advances(board, from, to) && to_rank != last
            } else if kind == 1 {
                (adr == 1 && adf == 2) || (adr == 2 && adf == 1)
            } else if kind == 5 {
                adr <= 1 && adf <= 1
            } else {
                let diagonal = adr == adf && dr != 0;
                let straight = (dr == 0) != (df == 0);
                let shape = if kind == 2 {
                    diagonal
                } else if kind == 3 {
                    straight
                } else {
                    diagonal || straight
                };
                shape && path_is_clear(board, from, to)
            }
        },
        Flag::PawnTwoUp => {
            let start: u8 = if white {
                1
            } else {
                6
            };
            if kind != 0 || from.0 / 8 != start {
                return false;
            }
            let (skipped, target) = if white {
                (from.0 + 8, from.0 + 16)
            } else {
                (from.0 - 8, from.0 - 16)
            };
            to.0 == target && board.piece_at(Square(skipped)).is_none() && board.piece_at(to).is_none()
        },
        Flag::EnPassant => match board.game_state.en_passant_square {
            Some(ep) => {
                if kind != 0 || to.0 != ep.0 || !(dr == (if white { 1 } else { -1 }) && adf == 1) {
                    return false;
                }
                let captured_square = if white {
                    to.0 - 8
                } else {
                    to.0 + 8
                };
                let enemy_pawn = if white {
                    Piece::BlackPawn
                } else {
                    Piece::WhitePawn
                };
                board.piece_at(to).is_none() && board.piece_at(Square(captured_square)) == Some(enemy_pawn)
            },
            None => false,
        },
        Flag::Castle => kind == 5 && castling_is_allowed(board, from, to),
        _ => kind == 0 && pawn_advances(board, from, to) && to_rank == last,
    }
}

/// A move that follows the rules of its piece can be made.
pub proof fn lemma_pseudo_legal_can_make(v: BoardView, m: Move)
    requires
        pseudo_legal(v, m),
    ensures
        can_make(v, m),
{
    let from = m.from.0 as int;
    let to = m.to.0 as int;
    let piece = v.squares[from]->0;
    lemma_piece_of(piece);
    assert(from == 8 * rank_of(from) + file_of(from));
    assert(to == 8 * rank_of(to) + file_of(to));
}

/// Whether the move is legal: it follows the rules of its piece and leaves
/// the own king unattacked.
pub fn is_legal(board: &Board, m: &Move) -> (valid: bool)
    requires
        board.wf(),
    ensures
        valid == legal(board@, *m),
{
    if !is_pseudo_legal(board, m) {
        return false;
    }
    let mut copy = *board;
    copy.game_state.half_move_clock = 0;
    proof {
        crate::board::lemma_same_bits(copy, *board);
        lemma_pseudo_legal_can_make(board@, *m);
        assert(copy@.squares == board@.squares);
        assert(can_make(copy@, *m));
        lemma_can_make_runs(copy, *m);
    }
    let ghost before = copy;
    copy.make_move(m);
    proof {
        assert(made(before@, *m).squares =~= made(board@, *m).squares);
        assert(in_check(copy@, board.white_to_move) == in_check(made(board@, *m), board.white_to_move));
    }
    !king_in_check(&copy, board.white_to_move)
}

/// Move numbers in a range that name no listed move add nothing to the list.
proof fn lemma_none_listed(v: BoardView, captures_only: bool, low: int, high: int)
    requires
        0 <= low <= high,
        forall|k: int| low <= k < high ==> !#[trigger] listed(v, move_number(k), captures_only),
    ensures
        moves_upto(v, captures_only, high) == moves_upto(v, captures_only, low),
    decreases high - low,
{
    if low < high {
        lemma_none_listed(v, captures_only, low, high - 1);
    }
}

/// The number of a move with the given squares and flag.
pub proof fn lemma_move_number(from: int, to: int, flag: int)
    requires
        0 <= from < 64,
        0 <= to < 64,
        0 <= flag < 8,
    ensures
        move_number(from * 512 + to * 8 + flag) == (Move {
            from: Square(from as u8),
            to: Square(to as u8),
            flag: flag_from_index(flag),
        }),
        0 <= from * 512 + to * 8 + flag < 32768,
{
    let k = from * 512 + to * 8 + flag;
    assert(k / 512 == from);
    assert((k / 8) % 64 == to);
    assert(k % 8 == flag);
}

/// Whether the move takes a piece.
fn captures(board: &Board, m: &Move) -> (capture: bool)
    requires
        m.is_valid(),
    ensures
        capture == is_capture(board@, *m),
{
    if m.flag == Flag::EnPassant {
        return true;
    }
    match board.piece_at(m.to) {
        Some(piece) => piece.is_white() != board.white_to_move,
        None => false,
    }
}

/// Generates the legal moves of a position.
pub struct MoveGenerator {
    board: Board,
}

impl MoveGenerator {
    /// The board it generates moves for.
    pub closed spec fn spec_board(&self) -> Board {
        self.board
    }

    /// A generator for the board.
    pub fn new(board: &Board) -> (generator: MoveGenerator)
        ensures
            generator.spec_board() == *board,
    {
        MoveGenerator { board: *board }
    }

    /// All legal moves, or all legal captures when `captures_only` holds
    /// (a capture takes a piece on the target square, or en passant), in the
    /// order of start square, then target square, then flag.
    pub fn generate(&self, captures_only: bool) -> (moves: Vec<Move>)
        requires
            self.spec_board().wf(),
        ensures
            moves@ == legal_moves(self.spec_board()@, captures_only),
    {
        let board = &self.board;
        let ghost v = board@;
        let mut moves: Vec<Move> = Vec::new();
        let mut from: u8 = 0;
        while from < 64
            invariant
                from <= 64,
                board.wf(),
                v == board@,
                moves@ == moves_upto(v, captures_only, from * 512),
            decreases 64 - from,
        {
            let own = match board.piece_at(Square(from)) {
                Some(piece) => piece.is_white() == board.white_to_move,
                None => false,
            };
            if own {
                let mut to: u8 = 0;
                while to < 64
                    invariant
                        from < 64,
                        to <= 64,
                        board.wf(),
                        v == board@,
                        moves@ == moves_upto(v, captures_only, from * 512 + to * 8),
                    decreases 64 - to,
                {
                    let mut flag: u16 = 0;
                    while flag < 8
                        invariant
                            from < 64,
                            to < 64,
                            flag <= 8,
                            board.wf(),
                            v == board@,
                            moves@ == moves_upto(v, captures_only, from * 512 + to * 8 + flag),
                        decreases 8 - flag,
                    {
                        let m = Move { from: Square(from), to: Square(to), flag: Flag::from_index(flag) };
                        proof {
                            lemma_move_number(from as int, to as int, flag as int);
                        }
                        if is_legal(board, &m) && (!captures_only || captures(board, &m)) {
                            moves.push(m);
                        }
                        flag = flag + 1;
                    }
                    to = to + 1;
                }
            } else {
                proof {
                    assert forall|k: int| from * 512 <= k < (from + 1) * 512 implies !#[trigger] listed(
                        v,
                        move_number(k),
                        captures_only,
                    ) by {
                        assert(k / 512 == from);
                        assert(v.squares[from as int] == board.spec_piece_at(from as int));
                    }
                    lemma_none_listed(v, captures_only, from * 512, (from + 1) * 512);
                }
            }
            from = from + 1;
        }
        moves
    }

    /// Whether the side to move is in check.
    pub fn is_in_check(&self) -> (check: bool)
        ensures
            check == in_check(self.spec_board()@, self.spec_board().white_to_move),
    {
        king_in_check(&self.board, self.board.white_to_move)
    }
}

} // verus!

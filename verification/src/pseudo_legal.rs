//! A simple generator of moves by how each piece moves, without looking at
//! what a move leaves attacked, from precomputed lists of target squares.
//! It knows no castling, en passant or promotion.

use vstd::prelude::*;
use crate::square::{Square, DIRECTIONS, rank_of, file_of};
use crate::piece::{Piece, piece_kind, lemma_piece_index};
use crate::board::Board;
use crate::rules::{abs, rank_diff, file_diff, king_step, knight_jump, pawn_capture_step};

verus! {

/// A move of a piece, with the piece it captures, if any.
#[derive(Clone, Copy, PartialEq, Eq, Structural, Debug)]
pub struct PieceMove {
    pub piece: Piece,
    pub from: Square,
    pub to: Square,
    pub captured: Option<Piece>,
}

impl PieceMove {
    /// A move of `piece` from `from` to `to`, capturing `captured`.
    pub fn new(piece: Piece, from: Square, to: Square, captured: Option<Piece>) -> (move_data: PieceMove)
        ensures
            move_data == (PieceMove { piece, from, to, captured }),
    {
        PieceMove { piece, from, to, captured }
    }
}

/// Kinds of target lists: a king's step, a knight's jump, a white pawn's
/// capture, a black pawn's capture.
pub open spec fn is_target(kind: int, from: int, to: int) -> bool {
    if kind == 0 {
        king_step(from, to)
    } else if kind == 1 {
        knight_jump(from, to)
    } else if kind == 2 {
        pawn_capture_step(from, to, true)
    } else {
        pawn_capture_step(from, to, false)
    }
}

/// The targets of a kind from `from` among the squares below `n`, in order.
pub open spec fn targets_upto(kind: int, from: int, n: int) -> Seq<Square>
    decreases n,
{
    if n <= 0 {
        Seq::empty()
    } else {
        let previous = targets_upto(kind, from, n - 1);
        if is_target(kind, from, n - 1) {
            previous.push(Square((n - 1) as u8))
        } else {
            previous
        }
    }
}

/// Every target is a square of the board.
pub proof fn lemma_targets_valid(kind: int, from: int, n: int)
    requires
        n <= 64,
    ensures
        forall|j: int| 0 <= j < targets_upto(kind, from, n).len() ==> (#[trigger] targets_upto(kind, from, n)[j]).is_valid(),
    decreases n,
{
    if n > 0 {
        lemma_targets_valid(kind, from, n - 1);
        let previous = targets_upto(kind, from, n - 1);
        assert forall|j: int| 0 <= j < targets_upto(kind, from, n).len() implies (#[trigger] targets_upto(
            kind,
            from,
            n,
        )[j]).is_valid() by {
            if j < previous.len() {
                assert(targets_upto(kind, from, n)[j] == previous[j]);
            }
        }
    }
}

/// All targets of a kind from a square, in order.
pub open spec fn targets(kind: int, from: int) -> Seq<Square> {
    targets_upto(kind, from, 64)
}

/// The smaller of two numbers.
pub open spec fn smaller(a: int, b: int) -> int {
    if a < b {
        a
    } else {
        b
    }
}

/// Number of squares from a square to the edge of the board in each of the
/// `DIRECTIONS`: up, down, left, right, up-left, down-right, up-right, down-left.
pub open spec fn distances_to_edge(square: int) -> Seq<int> {
    let up = 7 - rank_of(square);
    let down = rank_of(square);
    let left = file_of(square);
    let right = 7 - file_of(square);
    seq![up, down, left, right, smaller(up, left), smaller(down, right), smaller(up, right), smaller(down, left)]
}

/// Lists of target squares for every square.
pub struct PrecomputedData {
    /// Edge distances of each square, in the order of `DIRECTIONS`.
    pub squares_from_edge: Vec<[u8; 8]>,
    pub king_moves_at_square: Vec<Vec<Square>>,
    pub knight_moves_at_square: Vec<Vec<Square>>,
    pub white_pawn_attacks_at_square: Vec<Vec<Square>>,
    pub black_pawn_attacks_at_square: Vec<Vec<Square>>,
}

impl PrecomputedData {
    /// Every list is the one its square and kind call for.
    pub open spec fn wf(&self) -> bool {
        &&& self.squares_from_edge@.len() == 64
        &&& self.king_moves_at_square@.len() == 64
        &&& self.knight_moves_at_square@.len() == 64
        &&& self.white_pawn_attacks_at_square@.len() == 64
        &&& self.black_pawn_attacks_at_square@.len() == 64
        &&& forall|i: int|
            0 <= i < 64 ==> (#[trigger] self.squares_from_edge@[i])@.map_values(|d: u8| d as int)
                == distances_to_edge(i)
        &&& forall|i: int| 0 <= i < 64 ==> (#[trigger] self.king_moves_at_square@[i])@ == targets(0, i)
        &&& forall|i: int| 0 <= i < 64 ==> (#[trigger] self.knight_moves_at_square@[i])@ == targets(1, i)
        &&& forall|i: int| 0 <= i < 64 ==> (#[trigger] self.white_pawn_attacks_at_square@[i])@ == targets(2, i)
        &&& forall|i: int| 0 <= i < 64 ==> (#[trigger] self.black_pawn_attacks_at_square@[i])@ == targets(3, i)
    }

    /// Computes the lists.
    pub fn compute() -> (data: PrecomputedData)
        ensures
            data.wf(),
    {
        let mut squares_from_edge: Vec<[u8; 8]> = Vec::new();
        let mut king_moves_at_square: Vec<Vec<Square>> = Vec::new();
        let mut knight_moves_at_square: Vec<Vec<Square>> = Vec::new();
        let mut white_pawn_attacks_at_square: Vec<Vec<Square>> = Vec::new();
        let mut black_pawn_attacks_at_square: Vec<Vec<Square>> = Vec::new();
        let mut square: u8 = 0;
        while square < 64
            invariant
                square <= 64,
                squares_from_edge@.len() == square,
                king_moves_at_square@.len() == square,
                knight_moves_at_square@.len() == square,
                white_pawn_attacks_at_square@.len() == square,
                black_pawn_attacks_at_square@.len() == square,
                forall|i: int|
                    0 <= i < square ==> (#[trigger] squares_from_edge@[i])@.map_values(|d: u8| d as int)
                        == distances_to_edge(i),
                forall|i: int| 0 <= i < square ==> (#[trigger] king_moves_at_square@[i])@ == targets(0, i),
                forall|i: int| 0 <= i < square ==> (#[trigger] knight_moves_at_square@[i])@ == targets(1, i),
                forall|i: int| 0 <= i < square ==> (#[trigger] white_pawn_attacks_at_square@[i])@ == targets(2, i),
                forall|i: int| 0 <= i < square ==> (#[trigger] black_pawn_attacks_at_square@[i])@ == targets(3, i),
            decreases 64 - square,
        {
            squares_from_edge.push(edge_distances(square));
            king_moves_at_square.push(target_list(0, square));
            knight_moves_at_square.push(target_list(1, square));
            white_pawn_attacks_at_square.push(target_list(2, square));
            black_pawn_attacks_at_square.push(target_list(3, square));
            square = square + 1;
        }
        PrecomputedData {
            squares_from_edge,
            king_moves_at_square,
            knight_moves_at_square,
            white_pawn_attacks_at_square,
            black_pawn_attacks_at_square,
        }
    }
}

/// The edge distances of a square.
fn edge_distances(square: u8) -> (distances: [u8; 8])
    requires
        square < 64,
    ensures
        distances@.map_values(|d: u8| d as int) == distances_to_edge(square as int),
{
    let up = 7 - square / 8;
    let down = square / 8;
    let left = square % 8;
    let right = 7 - square % 8;
    let distances = [
        up,
        down,
        left,
        right,
        if up < left { up } else { left },
        if down < right { down } else { right },
        if up < right { up } else { right },
        if down < left { down } else { left },
    ];
    assert(distances@.map_values(|d: u8| d as int) =~= distances_to_edge(square as int));
    distances
}

/// Whether `to` is a target of the kind from `from`.
fn target_test(kind: u8, from: u8, to: u8) -> (target: bool)
    requires
        from < 64,
        to < 64,
    ensures
        target == is_target(kind as int, from as int, to as int),
{
    let rank_step: i16 = (to / 8) as i16 - (from / 8) as i16;
    let file_step: i16 = (to % 8) as i16 - (from % 8) as i16;
    let ranks: i16 = if rank_step < 0 { -rank_step } else { rank_step };
    let files: i16 = if file_step < 0 { -file_step } else { file_step };
    assert(ranks == abs(rank_diff(from as int, to as int)));
    assert(files == abs(file_diff(from as int, to as int)));
    if kind == 0 {
        ranks <= 1 && files <= 1 && from != to
    } else if kind == 1 {
        (ranks == 1 && files == 2) || (ranks == 2 && files == 1)
    } else if kind == 2 {
        rank_step == 1 && files == 1
    } else {
        rank_step == -1 && files == 1
    }
}

/// The targets of a kind from a square, in order.
fn target_list(kind: u8, from: u8) -> (list: Vec<Square>)
    requires
        from < 64,
    ensures
        list@ == targets(kind as int, from as int),
{
    let mut list: Vec<Square> = Vec::new();
    let mut to: u8 = 0;
    while to < 64
        invariant
            to <= 64,
            from < 64,
            list@ == targets_upto(kind as int, from as int, to as int),
        decreases 64 - to,
    {
        if target_test(kind, from, to) {
            list.push(Square(to));
        }
        to = to + 1;
    }
    list
}

/// The square `k` steps of `direction` from `from`.
pub open spec fn step_square(from: int, direction: int, k: int) -> int {
    from + direction * k
}

/// Whether `direction` is one of `DIRECTIONS`.
pub open spec fn is_direction(direction: int) -> bool {
    direction == 8 || direction == -8 || direction == -1 || direction == 1 || direction == 7 || direction
        == -7 || direction == 9 || direction == -9
}

/// Position of a direction in `DIRECTIONS`.
pub open spec fn direction_slot(direction: int) -> int {
    if direction == 8 {
        0
    } else if direction == -8 {
        1
    } else if direction == -1 {
        2
    } else if direction == 1 {
        3
    } else if direction == 7 {
        4
    } else if direction == -7 {
        5
    } else if direction == 9 {
        6
    } else {
        7
    }
}

/// Number of squares from `square` to the edge of the board going in `direction`.
pub open spec fn edge_distance(square: int, direction: int) -> int {
    distances_to_edge(square)[direction_slot(direction)]
}

/// Every step of a walk that stays within the edge distance is on the board.
pub proof fn lemma_step_in_board(square: int, direction: int, k: int)
    requires
        0 <= square < 64,
        is_direction(direction),
        1 <= k <= edge_distance(square, direction),
    ensures
        0 <= step_square(square, direction, k) < 64,
{
    let r = rank_of(square);
    let f = file_of(square);
    assert(square == 8 * r + f && 0 <= r < 8 && 0 <= f < 8);
    if direction == 8 {
        assert(direction * k == 8 * k);
    } else if direction == -8 {
        assert(direction * k == -8 * k);
    } else if direction == -1 {
        assert(direction * k == -k);
    } else if direction == 1 {
        assert(direction * k == k);
    } else if direction == 7 {
        assert(direction * k == 7 * k);
    } else if direction == -7 {
        assert(direction * k == -7 * k);
    } else if direction == 9 {
        assert(direction * k == 9 * k);
    } else {
        assert(direction * k == -9 * k);
    }
}

/// The move of `piece` from `from` to `to`, capturing the enemy piece there.
pub open spec fn move_onto(board: Board, piece: Piece, from: Square, to: int) -> PieceMove {
    PieceMove { piece, from, to: Square(to as u8), captured: board.spec_enemy_piece_at(to) }
}

/// Moves to the first `n` listed targets not held by a friendly piece.
pub open spec fn step_moves(board: Board, piece: Piece, from: Square, list: Seq<Square>, n: int) -> Seq<
    PieceMove,
>
    decreases n,
{
    if n <= 0 {
        Seq::empty()
    } else {
        let previous = step_moves(board, piece, from, list, n - 1);
        let to = list[n - 1].0 as int;
        if board.spec_friendly_piece_at(to) is None {
            previous.push(move_onto(board, piece, from, to))
        } else {
            previous
        }
    }
}

/// Moves of a walk from its `k`-th step on, up to `distance` steps: each
/// square up to the first friendly piece, or up to and including the first
/// enemy piece.
pub open spec fn ray_moves(board: Board, piece: Piece, from: Square, direction: int, distance: int, k: int) -> Seq<
    PieceMove,
>
    decreases distance + 1 - k,
{
    if k > distance {
        Seq::empty()
    } else {
        let to = step_square(from.0 as int, direction, k);
        if board.spec_friendly_piece_at(to) is Some {
            Seq::empty()
        } else if board.spec_enemy_piece_at(to) is Some {
            seq![move_onto(board, piece, from, to)]
        } else {
            seq![move_onto(board, piece, from, to)] + ray_moves(board, piece, from, direction, distance, k + 1)
        }
    }
}

/// Moves of the walks along the first `n` directions, each from the square
/// next to `from` to the edge of the board.
pub open spec fn directional_moves(board: Board, piece: Piece, from: Square, directions: Seq<i8>, n: int) -> Seq<
    PieceMove,
>
    decreases n,
{
    if n <= 0 {
        Seq::empty()
    } else {
        let direction = directions[n - 1] as int;
        directional_moves(board, piece, from, directions, n - 1) + ray_moves(
            board,
            piece,
            from,
            direction,
            edge_distance(from.0 as int, direction),
            1,
        )
    }
}

/// Captures by a pawn onto those of the first `n` attacked squares that
/// hold an enemy piece.
pub open spec fn pawn_captures(board: Board, piece: Piece, from: Square, attacks: Seq<Square>, n: int) -> Seq<
    PieceMove,
>
    decreases n,
{
    if n <= 0 {
        Seq::empty()
    } else {
        let previous = pawn_captures(board, piece, from, attacks, n - 1);
        let to = attacks[n - 1];
        match board.spec_enemy_piece_at(to.0 as int) {
            Some(enemy) => previous.push(PieceMove { piece, from, to, captured: Some(enemy) }),
            None => previous,
        }
    }
}

/// Moves of a pawn: a capture onto each attacked square that holds an
/// enemy piece, then a step forward onto an empty square, followed, from the
/// starting rank, by the double step onto an empty square.
pub open spec fn pawn_moves(board: Board, piece: Piece, from: Square) -> Seq<PieceMove> {
    let square = from.0 as int;
    let white = piece == Piece::WhitePawn;
    let attacks = if white {
        targets(2, square)
    } else {
        targets(3, square)
    };
    let captures = pawn_captures(board, piece, from, attacks, attacks.len() as int);
    let ahead = if white {
        square + 8
    } else {
        square - 8
    };
    let two_ahead = if white {
        square + 16
    } else {
        square - 16
    };
    let quiet = PieceMove { piece, from, to: Square(ahead as u8), captured: None };
    let double = PieceMove { piece, from, to: Square(two_ahead as u8), captured: None };
    let starting = if white {
        rank_of(square) == 1
    } else {
        rank_of(square) == 6
    };
    let pushes = if board.spec_piece_at(ahead) is None {
        if starting && board.spec_piece_at(two_ahead) is None {
            seq![quiet, double]
        } else {
            seq![quiet]
        }
    } else {
        Seq::empty()
    };
    captures + pushes
}

/// Directions of a bishop, a rook and a queen among `DIRECTIONS`.
pub open spec fn bishop_directions() -> Seq<i8> {
    DIRECTIONS@.subrange(4, 8)
}

pub open spec fn rook_directions() -> Seq<i8> {
    DIRECTIONS@.subrange(0, 4)
}

/// Moves of the piece of the side to move on a square.
pub open spec fn square_moves(board: Board, square: int) -> Seq<PieceMove> {
    let from = Square(square as u8);
    match board.spec_friendly_piece_at(square) {
        None => Seq::empty(),
        Some(piece) => {
            let kind = piece_kind(piece);
            if kind == 0 {
                pawn_moves(board, piece, from)
            } else if kind == 1 {
                step_moves(board, piece, from, targets(1, square), targets(1, square).len() as int)
            } else if kind == 2 {
                directional_moves(board, piece, from, bishop_directions(), 4)
            } else if kind == 3 {
                directional_moves(board, piece, from, rook_directions(), 4)
            } else if kind == 4 {
                directional_moves(board, piece, from, DIRECTIONS@, 8)
            } else {
                step_moves(board, piece, from, targets(0, square), targets(0, square).len() as int)
            }
        },
    }
}

/// Moves of the pieces of the side to move on the first `n` squares.
pub open spec fn moves_upto(board: Board, n: int) -> Seq<PieceMove>
    decreases n,
{
    if n <= 0 {
        Seq::empty()
    } else {
        moves_upto(board, n - 1) + square_moves(board, n - 1)
    }
}

/// No pawn of the side to move stands where it could not step forward.
pub open spec fn pawns_can_step(board: Board) -> bool {
    forall|i: int|
        0 <= i < 64 ==> match #[trigger] board.spec_friendly_piece_at(i) {
            Some(Piece::WhitePawn) => rank_of(i) < 7,
            Some(piece) => piece_kind(piece) == 0 ==> rank_of(i) > 0,
            None => true,
        }
}

/// Position of a direction in `DIRECTIONS`.
fn direction_index(direction: i8) -> (slot: usize)
    requires
        is_direction(direction as int),
    ensures
        slot == direction_slot(direction as int),
        slot < 8,
{
    match direction {
        8 => 0,
        -8 => 1,
        -1 => 2,
        1 => 3,
        7 => 4,
        -7 => 5,
        9 => 6,
        _ => 7,
    }
}

/// Generates moves by the movement rules of the pieces.
pub struct PsuedoLegalMoveGenerator {
    board: Board,
    precomputed: PrecomputedData,
}

impl PsuedoLegalMoveGenerator {
    /// The board moves are generated for.
    pub closed spec fn spec_board(&self) -> Board {
        self.board
    }

    /// The precomputed lists are right.
    pub closed spec fn wf(&self) -> bool {
        self.precomputed.wf()
    }

    /// The piece of the side to move on the square.
    pub fn friendly_piece_at(&self, square: Square) -> (piece: Option<Piece>)
        requires
            square.is_valid(),
        ensures
            piece == self.spec_board().spec_friendly_piece_at(square.0 as int),
    {
        if self.board.white_to_move {
            self.board.white_piece_at(square)
        } else {
            self.board.black_piece_at(square)
        }
    }

    /// The piece of the side not to move on the square.
    pub fn enemy_piece_at(&self, square: Square) -> (piece: Option<Piece>)
        requires
            square.is_valid(),
        ensures
            piece == self.spec_board().spec_enemy_piece_at(square.0 as int),
    {
        if self.board.white_to_move {
            self.board.black_piece_at(square)
        } else {
            self.board.white_piece_at(square)
        }
    }

    /// Adds the moves of a pawn (see `pawn_moves`).
    fn gen_pawn(&self, moves: &mut Vec<PieceMove>, piece: Piece, square: Square)
        requires
            self.wf(),
            square.is_valid(),
            piece == Piece::WhitePawn ==> rank_of(square.0 as int) < 7,
            piece != Piece::WhitePawn ==> rank_of(square.0 as int) > 0,
        ensures
            final(moves)@ == old(moves)@ + pawn_moves(self.spec_board(), piece, square),
    {
        let ghost start = moves@;
        let ghost sq = square.0 as int;
        let ghost board = self.spec_board();
        let attacks = if let Piece::WhitePawn = piece {
            &self.precomputed.white_pawn_attacks_at_square[square.index() as usize]
        } else {
            &self.precomputed.black_pawn_attacks_at_square[square.index() as usize]
        };
        proof {
            lemma_targets_valid(2, sq, 64);
            lemma_targets_valid(3, sq, 64);
        }
        let mut i: usize = 0;
        while i < attacks.len()
            invariant
                i <= attacks@.len(),
                board == self.spec_board(),
                forall|j: int| 0 <= j < attacks@.len() ==> (#[trigger] attacks@[j]).is_valid(),
                moves@ == start + pawn_captures(board, piece, square, attacks@, i as int),
            decreases attacks@.len() - i,
        {
            let attack = attacks[i];
            if let Some(enemy) = self.enemy_piece_at(attack) {
                moves.push(PieceMove::new(piece, square, attack, Some(enemy)));
            }
            proof {
                assert(moves@ =~= start + pawn_captures(board, piece, square, attacks@, i + 1));
            }
            i = i + 1;
        }
        let move_to = if let Piece::WhitePawn = piece {
            square.up(1)
        } else {
            square.down(1)
        };
        if self.board.piece_at(move_to).is_none() {
            moves.push(PieceMove::new(piece, square, move_to, None));
            if let Piece::WhitePawn = piece {
                if square.rank() == 1 {
                    let double = square.up(2);
                    if self.board.piece_at(double).is_none() {
                        moves.push(PieceMove::new(piece, square, double, None));
                    }
                }
            } else if square.rank() == 6 {
                let double = square.down(2);
                if self.board.piece_at(double).is_none() {
                    moves.push(PieceMove::new(piece, square, double, None));
                }
            }
        }
        proof {
            assert(moves@ =~= start + pawn_moves(board, piece, square));
        }
    }

    /// Adds the moves of the walks from a square along each direction, from
    /// the next square to the edge of the board.
    pub fn gen_directional(&self, moves: &mut Vec<PieceMove>, piece: Piece, square: Square, directions: &[i8])
        requires
            self.wf(),
            square.is_valid(),
            forall|i: int| 0 <= i < directions@.len() ==> is_direction(#[trigger] directions@[i] as int),
        ensures
            final(moves)@ == old(moves)@ + directional_moves(
                self.spec_board(),
                piece,
                square,
                directions@,
                directions@.len() as int,
            ),
    {
        let ghost start = moves@;
        let ghost board = self.spec_board();
        let ghost sq = square.0 as int;
        let distances = self.precomputed.squares_from_edge[square.index() as usize];
        proof {
            assert(forall|j: int| 0 <= j < 8 ==> #[trigger] distances@[j] as int == distances_to_edge(sq)[j]) by {
                assert forall|j: int| 0 <= j < 8 implies #[trigger] distances@[j] as int == distances_to_edge(sq)[j] by {
                    assert(distances@.map_values(|d: u8| d as int)[j] == distances@[j] as int);
                }
            }
        }
        let mut i: usize = 0;
        while i < directions.len()
            invariant
                i <= directions@.len(),
                board == self.spec_board(),
                sq == square.0,
                square.is_valid(),
                forall|j: int| 0 <= j < 8 ==> #[trigger] distances@[j] as int == distances_to_edge(sq)[j],
                forall|j: int| 0 <= j < directions@.len() ==> is_direction(#[trigger] directions@[j] as int),
                moves@ == start + directional_moves(board, piece, square, directions@, i as int),
            decreases directions@.len() - i,
        {
            let direction = directions[i];
            proof {
                assert(is_direction(directions@[i as int] as int));
            }
            let distance = distances[direction_index(direction)];
            let ghost before = moves@;
            let mut count: u8 = 1;
            while count <= distance
                invariant_except_break
                    moves@ + ray_moves(board, piece, square, direction as int, distance as int, count as int)
                        == before + ray_moves(board, piece, square, direction as int, distance as int, 1),
                invariant
                    i < directions@.len(),
                    direction == directions@[i as int],
                    is_direction(direction as int),
                    distance as int == edge_distance(sq, direction as int),
                    board == self.spec_board(),
                    sq == square.0,
                    square.is_valid(),
                    1 <= count <= distance + 1,
                ensures
                    moves@ == before + ray_moves(board, piece, square, direction as int, distance as int, 1),
                decreases distance + 1 - count,
            {
                proof {
                    assert(distance <= 7);
                    lemma_step_in_board(sq, direction as int, count as int);
                }
                let step = direction * (count as i8);
                let move_to = square.offset(step);
                if self.friendly_piece_at(move_to).is_some() {
                    proof {
                        assert(moves@ + Seq::<PieceMove>::empty() =~= moves@);
                    }
                    break;
                }
                let enemy = self.enemy_piece_at(move_to);
                let ghost pushed = move_onto(board, piece, square, move_to.0 as int);
                moves.push(PieceMove::new(piece, square, move_to, enemy));
                if enemy.is_some() {
                    proof {
                        assert(moves@ =~= before + ray_moves(board, piece, square, direction as int, distance as int, 1)) by {
                            assert(moves@ =~= (moves@.drop_last() + seq![pushed]));
                        }
                    }
                    break;
                }
                proof {
                    let rest = ray_moves(board, piece, square, direction as int, distance as int, count + 1);
                    assert(moves@.drop_last() + (seq![pushed] + rest) =~= moves@ + rest);
                }
                count = count + 1;
            }
            proof {
                assert(start + directional_moves(board, piece, square, directions@, i + 1) =~= (start
                    + directional_moves(board, piece, square, directions@, i as int)) + ray_moves(
                    board,
                    piece,
                    square,
                    directions@[i as int] as int,
                    edge_distance(sq, directions@[i as int] as int),
                    1,
                ));
            }
            i = i + 1;
        }
    }

    /// Adds the king's steps onto squares not held by a friendly piece.
    pub fn gen_king(&self, moves: &mut Vec<PieceMove>, piece: Piece, square: Square)
        requires
            self.wf(),
            square.is_valid(),
        ensures
            final(moves)@ == old(moves)@ + step_moves(
                self.spec_board(),
                piece,
                square,
                targets(0, square.0 as int),
                targets(0, square.0 as int).len() as int,
            ),
    {
        let list = &self.precomputed.king_moves_at_square[square.index() as usize];
        proof {
            lemma_targets_valid(0, square.0 as int, 64);
        }
        self.gen_steps(moves, piece, square, list);
    }

    /// Adds the knight's jumps onto squares not held by a friendly piece.
    pub fn gen_knight(&self, moves: &mut Vec<PieceMove>, piece: Piece, square: Square)
        requires
            self.wf(),
            square.is_valid(),
        ensures
            final(moves)@ == old(moves)@ + step_moves(
                self.spec_board(),
                piece,
                square,
                targets(1, square.0 as int),
                targets(1, square.0 as int).len() as int,
            ),
    {
        let list = &self.precomputed.knight_moves_at_square[square.index() as usize];
        proof {
            lemma_targets_valid(1, square.0 as int, 64);
        }
        self.gen_steps(moves, piece, square, list);
    }

    /// Adds moves onto the listed squares not held by a friendly piece.
    fn gen_steps(&self, moves: &mut Vec<PieceMove>, piece: Piece, square: Square, list: &Vec<Square>)
        requires
            forall|j: int| 0 <= j < list@.len() ==> (#[trigger] list@[j]).is_valid(),
        ensures
            final(moves)@ == old(moves)@ + step_moves(self.spec_board(), piece, square, list@, list@.len() as int),
    {
        let ghost start = moves@;
        let mut j: usize = 0;
        while j < list.len()
            invariant
                j <= list@.len(),
                forall|k: int| 0 <= k < list@.len() ==> (#[trigger] list@[k]).is_valid(),
                moves@ == start + step_moves(self.spec_board(), piece, square, list@, j as int),
            decreases list@.len() - j,
        {
            let move_to = list[j];
            if self.friendly_piece_at(move_to).is_none() {
                let enemy = self.enemy_piece_at(move_to);
                moves.push(PieceMove::new(piece, square, move_to, enemy));
            }
            proof {
                assert(moves@ =~= start + step_moves(self.spec_board(), piece, square, list@, j + 1));
            }
            j = j + 1;
        }
    }

    /// A generator for the board.
    pub fn new(board: Board) -> (generator: PsuedoLegalMoveGenerator)
        ensures
            generator.wf(),
            generator.spec_board() == board,
    {
        let precomputed = PrecomputedData::compute();
        PsuedoLegalMoveGenerator { board, precomputed }
    }

    /// The board, to change it.
    pub fn board(&mut self) -> (board: &mut Board)
        ensures
            *board == old(self).spec_board(),
            final(self).spec_board() == *final(board),
            final(self).wf() == old(self).wf(),
    {
        &mut self.board
    }

    /// Adds the moves of every piece of the side to move, square by square.
    pub fn gen(&self, moves: &mut Vec<PieceMove>)
        requires
            self.wf(),
            pawns_can_step(self.spec_board()),
        ensures
            final(moves)@ == old(moves)@ + moves_upto(self.spec_board(), 64),
    {
        let ghost start = moves@;
        let ghost board = self.spec_board();
        let bishop: [i8; 4] = [7, -7, 9, -9];
        let rook: [i8; 4] = [8, -8, -1, 1];
        let queen: [i8; 8] = DIRECTIONS;
        proof {
            assert(bishop@ =~= bishop_directions());
            assert(rook@ =~= rook_directions());
        }
        let mut index: u8 = 0;
        while index < 64
            invariant
                index <= 64,
                self.wf(),
                board == self.spec_board(),
                pawns_can_step(board),
                bishop@ == bishop_directions(),
                rook@ == rook_directions(),
                queen@ == DIRECTIONS@,
                moves@ == start + moves_upto(board, index as int),
            decreases 64 - index,
        {
            let square = Square::from_index(index);
            let ghost before = moves@;
            let piece = self.friendly_piece_at(square);
            proof {
                assert(square.0 == index);
                let _ = board.spec_friendly_piece_at(index as int);
            }
            if let Some(piece) = piece {
                proof {
                    lemma_piece_index(piece, 0);
                }
                match piece {
                    Piece::WhitePawn | Piece::BlackPawn => self.gen_pawn(moves, piece, square),
                    Piece::WhiteKnight | Piece::BlackKnight => self.gen_knight(moves, piece, square),
                    Piece::WhiteBishop | Piece::BlackBishop => self.gen_directional(moves, piece, square, &bishop),
                    Piece::WhiteRook | Piece::BlackRook => self.gen_directional(moves, piece, square, &rook),
                    Piece::WhiteQueen | Piece::BlackQueen => self.gen_directional(moves, piece, square, &queen),
                    Piece::WhiteKing | Piece::BlackKing => self.gen_king(moves, piece, square),
                }
            }
            proof {
                assert(moves@ =~= start + moves_upto(board, index + 1));
            }
            index = index + 1;
        }
    }
}

} // verus!

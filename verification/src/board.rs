//! The board: one bit board per piece, side to move and the reversible game state.

use vstd::prelude::*;
use crate::square::Square;
use crate::piece::{Piece, piece_index, piece_from_index, piece_is_white, lemma_piece_index};
use crate::bit_board::{BitBoard, bit_set, lemma_bits_extensional};

verus! {

/// Which castling moves are still allowed.
#[derive(Clone, Copy, PartialEq, Eq, Structural, Debug, Hash)]
pub struct CastlingRights {
    pub white_king_side: bool,
    pub white_queen_side: bool,
    pub black_king_side: bool,
    pub black_queen_side: bool,
}

impl CastlingRights {
    /// No castling allowed.
    pub fn none() -> (rights: CastlingRights)
        ensures
            !rights.white_king_side && !rights.white_queen_side,
            !rights.black_king_side && !rights.black_queen_side,
    {
        CastlingRights {
            white_king_side: false,
            white_queen_side: false,
            black_king_side: false,
            black_queen_side: false,
        }
    }

    pub fn unset_white_king_side(&mut self)
        ensures
            *final(self) == (CastlingRights { white_king_side: false, ..*old(self) }),
    {
        self.white_king_side = false;
    }

    pub fn unset_white_queen_side(&mut self)
        ensures
            *final(self) == (CastlingRights { white_queen_side: false, ..*old(self) }),
    {
        self.white_queen_side = false;
    }

    pub fn unset_black_king_side(&mut self)
        ensures
            *final(self) == (CastlingRights { black_king_side: false, ..*old(self) }),
    {
        self.black_king_side = false;
    }

    pub fn unset_black_queen_side(&mut self)
        ensures
            *final(self) == (CastlingRights { black_queen_side: false, ..*old(self) }),
    {
        self.black_queen_side = false;
    }

    /// A number from 0 to 15 that names the rights, one bit per right.
    pub fn index(&self) -> (index: usize)
        ensures
            index == self.spec_index(),
            index < 16,
    {
        (if self.white_king_side { 1usize } else { 0 }) + (if self.white_queen_side {
            2usize
        } else {
            0
        }) + (if self.black_king_side { 4usize } else { 0 }) + (if self.black_queen_side {
            8usize
        } else {
            0
        })
    }

    pub open spec fn spec_index(self) -> int {
        (if self.white_king_side { 1int } else { 0 }) + (if self.white_queen_side {
            2int
        } else {
            0
        }) + (if self.black_king_side { 4int } else { 0 }) + (if self.black_queen_side {
            8int
        } else {
            0
        })
    }
}

/// The part of a position that a move changes and that cannot be computed
/// back from the move alone.
#[derive(Clone, Copy, PartialEq, Eq, Structural, Debug, Hash)]
pub struct GameState {
    pub castling_rights: CastlingRights,
    /// Square that a pawn skipped with its last double step.
    pub en_passant_square: Option<Square>,
    /// Moves since the last capture or pawn move.
    pub half_move_clock: u32,
    /// Piece captured by the last move.
    pub captured: Option<Piece>,
}

impl GameState {
    pub open spec fn wf(self) -> bool {
        match self.en_passant_square {
            Some(square) => square.is_valid(),
            None => true,
        }
    }
}

/// Mathematical model of a board: the content of each of the 64 squares,
/// the side to move and the game state.
#[verifier::ext_equal]
pub struct BoardView {
    pub squares: Seq<Option<Piece>>,
    pub white_to_move: bool,
    pub state: GameState,
}

/// A chess position held as one bit board per piece.
#[derive(Clone, Copy, Debug, Hash)]
pub struct Board {
    /// Bit board of each piece, in the order of `Piece`.
    pub bit_boards: [BitBoard; 12],
    pub white_to_move: bool,
    pub game_state: GameState,
}

/// The first piece, among the bit boards `from..to`, that is on square `i`.
pub open spec fn first_piece(bbs: Seq<BitBoard>, i: int, from: int, to: int) -> Option<Piece>
    decreases to - from,
{
    if from >= to {
        None
    } else if bbs[from].has(i) {
        Some(piece_from_index(from))
    } else {
        first_piece(bbs, i, from + 1, to)
    }
}

/// Whether a piece on a square belongs to the given side.
pub open spec fn of_side(square: Option<Piece>, white: bool) -> Option<Piece> {
    match square {
        Some(piece) => if piece_is_white(piece) == white {
            Some(piece)
        } else {
            None
        },
        None => None,
    }
}

/// On disjoint bit boards, the first piece on a square is the only one there.
pub proof fn lemma_first_piece(bbs: Seq<BitBoard>, i: int, from: int, to: int)
    requires
        0 <= from <= to <= 12,
        bbs.len() == 12,
        forall|p: int, q: int|
            0 <= p < 12 && 0 <= q < 12 && p != q ==> !(#[trigger] bbs[p].has(i) && #[trigger] bbs[q].has(i)),
    ensures
        forall|p: int| from <= p < to && #[trigger] bbs[p].has(i) ==> first_piece(bbs, i, from, to) == Some(piece_from_index(p)),
        (forall|p: int| from <= p < to ==> !#[trigger] bbs[p].has(i)) ==> first_piece(bbs, i, from, to) is None,
        first_piece(bbs, i, from, to) matches Some(piece) ==> from <= piece_index(piece) < to && bbs[piece_index(piece)].has(i),
    decreases to - from,
{
    if from < to {
        lemma_first_piece(bbs, i, from + 1, to);
        lemma_piece_index(piece_from_index(from), from);
    }
}

/// The first piece on a square depends only on the bits for that square.
pub proof fn lemma_first_piece_pointwise(a: Seq<BitBoard>, b: Seq<BitBoard>, i: int, from: int, to: int)
    requires
        forall|q: int| from <= q < to ==> #[trigger] a[q].has(i) == b[q].has(i),
    ensures
        first_piece(a, i, from, to) == first_piece(b, i, from, to),
    decreases to - from,
{
    if from < to {
        lemma_first_piece_pointwise(a, b, i, from + 1, to);
    }
}

/// If exactly one bit board has the square, its piece is the one there.
pub proof fn lemma_first_piece_unique(a: Seq<BitBoard>, i: int, from: int, to: int, p: int)
    requires
        from <= p < to,
        a[p].has(i),
        forall|q: int| from <= q < to && q != p ==> !#[trigger] a[q].has(i),
    ensures
        first_piece(a, i, from, to) == Some(piece_from_index(p)),
    decreases to - from,
{
    if from < p {
        lemma_first_piece_unique(a, i, from + 1, to, p);
    }
}

/// If no bit board has the square, no piece is there.
pub proof fn lemma_first_piece_none(a: Seq<BitBoard>, i: int, from: int, to: int)
    requires
        forall|q: int| from <= q < to ==> !#[trigger] a[q].has(i),
    ensures
        first_piece(a, i, from, to) is None,
    decreases to - from,
{
    if from < to {
        lemma_first_piece_none(a, i, from + 1, to);
    }
}

impl Board {
    /// Whether bit board `p` has square `i`.
    pub open spec fn has_piece(self, p: int, i: int) -> bool {
        self.bit_boards@[p].has(i)
    }

    /// The piece on square `i`.
    pub open spec fn spec_piece_at(self, i: int) -> Option<Piece> {
        first_piece(self.bit_boards@, i, 0, 12)
    }

    /// The white piece on square `i`.
    pub open spec fn spec_white_piece_at(self, i: int) -> Option<Piece> {
        first_piece(self.bit_boards@, i, 0, 6)
    }

    /// The black piece on square `i`.
    pub open spec fn spec_black_piece_at(self, i: int) -> Option<Piece> {
        first_piece(self.bit_boards@, i, 6, 12)
    }

    /// No square holds two pieces, and the en passant square is on the board.
    pub open spec fn wf(self) -> bool {
        &&& forall|p: int, q: int, i: int|
            0 <= p < 12 && 0 <= q < 12 && p != q && 0 <= i < 64 ==> !(#[trigger] self.has_piece(p, i)
                && #[trigger] self.has_piece(q, i))
        &&& self.game_state.wf()
    }

    /// The content of every square, the side to move and the game state.
    pub open spec fn view(self) -> BoardView {
        BoardView {
            squares: Seq::new(64, |i: int| self.spec_piece_at(i)),
            white_to_move: self.white_to_move,
            state: self.game_state,
        }
    }

    /// On a well-formed board, the piece on a square is exactly the one whose bit board has it.
    pub proof fn lemma_piece_at(self, i: int)
        requires
            self.wf(),
            0 <= i < 64,
        ensures
            forall|p: int| 0 <= p < 12 ==> (#[trigger] self.has_piece(p, i) <==> self@.squares[i] == Some(piece_from_index(p))),
            self@.squares[i] is None <==> forall|p: int| 0 <= p < 12 ==> !#[trigger] self.has_piece(p, i),
            self.spec_white_piece_at(i) == of_side(self@.squares[i], true),
            self.spec_black_piece_at(i) == of_side(self@.squares[i], false),
    {
        let bbs = self.bit_boards@;
        assert forall|p: int, q: int|
            0 <= p < 12 && 0 <= q < 12 && p != q implies !(#[trigger] bbs[p].has(i) && #[trigger] bbs[q].has(i)) by {
            assert(!(self.has_piece(p, i) && self.has_piece(q, i)));
        }
        lemma_first_piece(bbs, i, 0, 12);
        lemma_first_piece(bbs, i, 0, 6);
        lemma_first_piece(bbs, i, 6, 12);
        assert forall|p: int| 0 <= p < 12 implies (#[trigger] self.has_piece(p, i) <==> self@.squares[i]
            == Some(piece_from_index(p))) by {
            lemma_piece_index(piece_from_index(p), p);
            if self@.squares[i] == Some(piece_from_index(p)) {
                let piece = piece_from_index(p);
                assert(bbs[piece_index(piece)].has(i));
            }
        }
        if let Some(piece) = self@.squares[i] {
            lemma_piece_index(piece, 0);
            assert(self.has_piece(piece_index(piece), i));
        }
    }

    /// Two well-formed boards with the same model hold the same bit boards.
    pub proof fn lemma_view_determines_board(self, other: Board)
        requires
            self.wf(),
            other.wf(),
            self@ == other@,
        ensures
            self.bit_boards@ == other.bit_boards@,
            self.white_to_move == other.white_to_move,
            self.game_state == other.game_state,
    {
        assert forall|p: int| 0 <= p < 12 implies self.bit_boards@[p] == other.bit_boards@[p] by {
            assert forall|i: u64| i < 64 implies #[trigger] bit_set(self.bit_boards@[p].0, i)
                == bit_set(other.bit_boards@[p].0, i) by {
                self.lemma_piece_at(i as int);
                other.lemma_piece_at(i as int);
                assert(self@.squares[i as int] == other@.squares[i as int]);
                assert(self.has_piece(p, i as int) == other.has_piece(p, i as int));
            }
            lemma_bits_extensional(self.bit_boards@[p].0, other.bit_boards@[p].0);
        }
        assert(self.bit_boards@ =~= other.bit_boards@);
    }

    /// The first piece among bit boards `from..to` on the square.
    fn first_piece_at(&self, square: Square, from: usize, to: usize) -> (piece: Option<Piece>)
        requires
            square.is_valid(),
            from <= to <= 12,
        ensures
            piece == first_piece(self.bit_boards@, square.0 as int, from as int, to as int),
    {
        let mut p = from;
        while p < to
            invariant
                from <= p <= to <= 12,
                square.is_valid(),
                first_piece(self.bit_boards@, square.0 as int, from as int, to as int)
                    == first_piece(self.bit_boards@, square.0 as int, p as int, to as int),
            decreases to - p,
        {
            if self.bit_boards[p].get(&square) {
                return Some(Piece::from_index(p));
            }
            p = p + 1;
        }
        None
    }

    /// The piece on the square.
    pub fn piece_at(&self, square: Square) -> (piece: Option<Piece>)
        requires
            square.is_valid(),
        ensures
            piece == self.spec_piece_at(square.0 as int),
    {
        self.first_piece_at(square, 0, 12)
    }

    /// The white piece on the square.
    pub fn white_piece_at(&self, square: Square) -> (piece: Option<Piece>)
        requires
            square.is_valid(),
        ensures
            piece == self.spec_white_piece_at(square.0 as int),
    {
        self.first_piece_at(square, 0, 6)
    }

    /// The black piece on the square.
    pub fn black_piece_at(&self, square: Square) -> (piece: Option<Piece>)
        requires
            square.is_valid(),
        ensures
            piece == self.spec_black_piece_at(square.0 as int),
    {
        self.first_piece_at(square, 6, 12)
    }

    /// The piece of the side to move on the square.
    pub open spec fn spec_friendly_piece_at(self, i: int) -> Option<Piece> {
        if self.white_to_move {
            self.spec_white_piece_at(i)
        } else {
            self.spec_black_piece_at(i)
        }
    }

    /// The piece of the side not to move on the square.
    pub open spec fn spec_enemy_piece_at(self, i: int) -> Option<Piece> {
        if self.white_to_move {
            self.spec_black_piece_at(i)
        } else {
            self.spec_white_piece_at(i)
        }
    }

    /// The piece of the side to move on the square.
    pub fn friendly_piece_at(&self, square: Square) -> (piece: Option<Piece>)
        requires
            square.is_valid(),
        ensures
            piece == self.spec_friendly_piece_at(square.0 as int),
    {
        if self.white_to_move {
            self.white_piece_at(square)
        } else {
            self.black_piece_at(square)
        }
    }

    /// The piece of the side not to move on the square.
    pub fn enemy_piece_at(&self, square: Square) -> (piece: Option<Piece>)
        requires
            square.is_valid(),
        ensures
            piece == self.spec_enemy_piece_at(square.0 as int),
    {
        if self.white_to_move {
            self.black_piece_at(square)
        } else {
            self.white_piece_at(square)
        }
    }

    /// The bit board of a piece.
    pub fn get_bit_board(&self, piece: Piece) -> (bit_board: BitBoard)
        ensures
            bit_board == self.bit_boards@[piece_index(piece)],
    {
        self.bit_boards[piece.index()]
    }

    /// Removes the piece standing on the square.
    pub fn remove_piece(&mut self, piece: Piece, square: Square)
        requires
            old(self).wf(),
            square.is_valid(),
            old(self)@.squares[square.0 as int] == Some(piece),
        ensures
            final(self).wf(),
            final(self)@ == (BoardView {
                squares: old(self)@.squares.update(square.0 as int, None),
                ..old(self)@
            }),
    {
        let ghost old_board = *self;
        let p = piece.index();
        let mut bit_board = self.bit_boards[p];
        bit_board.toggle(&square);
        self.bit_boards[p] = bit_board;
        proof {
            let new_board = *self;
            lemma_piece_index(piece, 0);
            assert forall|q: int, j: int| 0 <= q < 12 && 0 <= j < 64 implies #[trigger] new_board.has_piece(q, j)
                == (old_board.has_piece(q, j) && !(q == p && j == square.0)) by {
                old_board.lemma_piece_at(j);
            }
            assert(new_board.wf());
            assert forall|j: int| 0 <= j < 64 implies #[trigger] new_board@.squares[j]
                == old_board@.squares.update(square.0 as int, None)[j] by {
                old_board.lemma_piece_at(j);
                new_board.lemma_piece_at(j);
                if let Some(x) = new_board@.squares[j] {
                    lemma_piece_index(x, 0);
                    assert(new_board.has_piece(piece_index(x), j));
                    assert(old_board.has_piece(piece_index(x), j));
                    assert(old_board@.squares[j] == Some(x));
                    assert(j != square.0);
                } else {
                    if j != square.0 {
                        assert forall|q: int| 0 <= q < 12 implies !#[trigger] old_board.has_piece(q, j) by {
                            assert(!new_board.has_piece(q, j));
                        }
                        assert(old_board@.squares[j] is None);
                    }
                }
            }
            assert(new_board@.squares =~= old_board@.squares.update(square.0 as int, None));
        }
    }

    /// Puts a piece on an empty square.
    pub fn add_piece(&mut self, piece: Piece, square: Square)
        requires
            old(self).wf(),
            square.is_valid(),
            old(self)@.squares[square.0 as int] is None,
        ensures
            final(self).wf(),
            final(self)@ == (BoardView {
                squares: old(self)@.squares.update(square.0 as int, Some(piece)),
                ..old(self)@
            }),
    {
        let ghost old_board = *self;
        let p = piece.index();
        let mut bit_board = self.bit_boards[p];
        bit_board.set(&square);
        self.bit_boards[p] = bit_board;
        proof {
            let new_board = *self;
            lemma_piece_index(piece, 0);
            assert forall|q: int, j: int| 0 <= q < 12 && 0 <= j < 64 implies #[trigger] new_board.has_piece(q, j)
                == (old_board.has_piece(q, j) || (q == p && j == square.0)) by {
                old_board.lemma_piece_at(j);
            }
            assert forall|q: int, r: int, j: int|
                0 <= q < 12 && 0 <= r < 12 && q != r && 0 <= j < 64 implies !(#[trigger] new_board.has_piece(q, j)
                && #[trigger] new_board.has_piece(r, j)) by {
                old_board.lemma_piece_at(j);
                assert(!(old_board.has_piece(q, j) && old_board.has_piece(r, j)));
            }
            assert(new_board.wf());
            assert forall|j: int| 0 <= j < 64 implies #[trigger] new_board@.squares[j]
                == old_board@.squares.update(square.0 as int, Some(piece))[j] by {
                old_board.lemma_piece_at(j);
                new_board.lemma_piece_at(j);
                if j == square.0 {
                    assert(new_board.has_piece(p as int, j));
                    assert(new_board@.squares[j] == Some(piece_from_index(p as int)));
                } else if let Some(x) = old_board@.squares[j] {
                    lemma_piece_index(x, 0);
                    assert(old_board.has_piece(piece_index(x), j));
                    assert(new_board.has_piece(piece_index(x), j));
                } else {
                    assert forall|q: int| 0 <= q < 12 implies !#[trigger] new_board.has_piece(q, j) by {
                        assert(!old_board.has_piece(q, j));
                    }
                }
            }
            assert(new_board@.squares =~= old_board@.squares.update(square.0 as int, Some(piece)));
        }
    }

    /// Moves a piece from its square to an empty square.
    pub fn move_piece(&mut self, piece: Piece, from: Square, to: Square)
        requires
            old(self).wf(),
            from.is_valid(),
            to.is_valid(),
            old(self)@.squares[from.0 as int] == Some(piece),
            old(self)@.squares[to.0 as int] is None,
        ensures
            final(self).wf(),
            final(self)@ == (BoardView {
                squares: old(self)@.squares.update(from.0 as int, None).update(to.0 as int, Some(piece)),
                ..old(self)@
            }),
    {
        self.remove_piece(piece, from);
        self.add_piece(piece, to);
    }

    /// Flips whether the piece's bit board has the square.
    pub fn toggle_square(&mut self, piece: Piece, square: Square)
        requires
            square.is_valid(),
        ensures
            final(self).white_to_move == old(self).white_to_move,
            final(self).game_state == old(self).game_state,
            forall|q: int, i: int|
                #![trigger final(self).has_piece(q, i)]
                0 <= q < 12 && 0 <= i < 64 ==> final(self).has_piece(q, i) == (old(self).has_piece(q, i)
                    != (q == piece_index(piece) && i == square.0)),
    {
        let p = piece.index();
        let mut bit_board = self.bit_boards[p];
        bit_board.toggle(&square);
        self.bit_boards[p] = bit_board;
    }

    /// Flips whether the piece's bit board has each of two squares.
    pub fn toggle_two_squares(&mut self, piece: Piece, a: Square, b: Square)
        requires
            a.is_valid(),
            b.is_valid(),
        ensures
            final(self).white_to_move == old(self).white_to_move,
            final(self).game_state == old(self).game_state,
            forall|q: int, i: int|
                #![trigger final(self).has_piece(q, i)]
                0 <= q < 12 && 0 <= i < 64 ==> final(self).has_piece(q, i) == (old(self).has_piece(q, i)
                    != (q == piece_index(piece) && ((i == a.0) != (i == b.0)))),
    {
        let p = piece.index();
        let mut bit_board = self.bit_boards[p];
        bit_board.toggle_two(&a, &b);
        self.bit_boards[p] = bit_board;
    }

    /// Makes the piece's bit board have the square.
    pub fn set_square(&mut self, piece: Piece, square: Square)
        requires
            square.is_valid(),
        ensures
            final(self).white_to_move == old(self).white_to_move,
            final(self).game_state == old(self).game_state,
            forall|q: int, i: int|
                #![trigger final(self).has_piece(q, i)]
                0 <= q < 12 && 0 <= i < 64 ==> final(self).has_piece(q, i) == (old(self).has_piece(q, i)
                    || (q == piece_index(piece) && i == square.0)),
    {
        let p = piece.index();
        let mut bit_board = self.bit_boards[p];
        bit_board.set(&square);
        self.bit_boards[p] = bit_board;
    }
}

/// Boards with the same bit boards have the same squares, and are well
/// formed together when their en passant squares are valid together.
pub proof fn lemma_same_bits(a: Board, b: Board)
    requires
        a.bit_boards@ == b.bit_boards@,
    ensures
        a@.squares == b@.squares,
        forall|q: int, i: int| #[trigger] a.has_piece(q, i) == b.has_piece(q, i),
        a.game_state.wf() == b.game_state.wf() ==> a.wf() == b.wf(),
{
    assert(a@.squares =~= b@.squares);
    assert(forall|q: int, i: int| #[trigger] a.has_piece(q, i) == b.has_piece(q, i));
    if a.game_state.wf() == b.game_state.wf() {
        if a.wf() {
            assert forall|p: int, q: int, i: int|
                0 <= p < 12 && 0 <= q < 12 && p != q && 0 <= i < 64 implies !(#[trigger] b.has_piece(p, i)
                && #[trigger] b.has_piece(q, i)) by {
                assert(!(a.has_piece(p, i) && a.has_piece(q, i)));
            }
        }
        if b.wf() {
            assert forall|p: int, q: int, i: int|
                0 <= p < 12 && 0 <= q < 12 && p != q && 0 <= i < 64 implies !(#[trigger] a.has_piece(p, i)
                && #[trigger] a.has_piece(q, i)) by {
                assert(!(b.has_piece(p, i) && b.has_piece(q, i)));
            }
        }
    }
}

/// A board whose bits say, square by square, exactly which piece of `target`
/// stands there, is well formed and has `target` as its squares.
pub proof fn lemma_bits_to_view(new: Board, target: Seq<Option<Piece>>)
    requires
        target.len() == 64,
        new.game_state.wf(),
        forall|q: int, i: int|
            0 <= q < 12 && 0 <= i < 64 ==> #[trigger] new.has_piece(q, i) == (target[i] == Some(
                piece_from_index(q),
            )),
    ensures
        new.wf(),
        new@.squares == target,
{
    assert forall|p: int, q: int, i: int|
        0 <= p < 12 && 0 <= q < 12 && p != q && 0 <= i < 64 implies !(#[trigger] new.has_piece(p, i)
        && #[trigger] new.has_piece(q, i)) by {
        lemma_piece_index(piece_from_index(p), p);
        lemma_piece_index(piece_from_index(q), q);
    }
    assert forall|i: int| 0 <= i < 64 implies #[trigger] new@.squares[i] == target[i] by {
        let bbs = new.bit_boards@;
        match target[i] {
            Some(x) => {
                lemma_piece_index(x, 0);
                let p = piece_index(x);
                assert(new.has_piece(p, i));
                assert forall|q: int| 0 <= q < 12 && q != p implies !#[trigger] bbs[q].has(i) by {
                    lemma_piece_index(piece_from_index(q), q);
                    assert(!new.has_piece(q, i));
                }
                lemma_first_piece_unique(bbs, i, 0, 12, p);
            },
            None => {
                assert forall|q: int| 0 <= q < 12 implies !#[trigger] bbs[q].has(i) by {
                    assert(!new.has_piece(q, i));
                }
                lemma_first_piece_none(bbs, i, 0, 12);
            },
        }
    }
    assert(new@.squares =~= target);
}

} // verus!

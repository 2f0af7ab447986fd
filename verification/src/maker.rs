//! Making and unmaking moves on the board.

use vstd::prelude::*;
use crate::square::{Square, file_of};
use crate::piece::{Piece, piece_index, piece_from_index, piece_kind, piece_of, lemma_index_names, lemma_piece_index};
use crate::board::{Board, BoardView, CastlingRights, GameState, of_side, lemma_bits_to_view, lemma_same_bits};
use crate::move_data::{Flag, Move, promotion_piece};

verus! {

/// Castling rights after a king moves.
pub open spec fn rights_after_king_move(rights: CastlingRights, piece: Piece) -> CastlingRights {
    if piece == Piece::WhiteKing {
        CastlingRights { white_king_side: false, white_queen_side: false, ..rights }
    } else if piece == Piece::BlackKing {
        CastlingRights { black_king_side: false, black_queen_side: false, ..rights }
    } else {
        rights
    }
}

/// Castling rights after a move leaves or lands on a corner square.
pub open spec fn rights_after_corner(rights: CastlingRights, square: int) -> CastlingRights {
    if square == 0 {
        CastlingRights { white_queen_side: false, ..rights }
    } else if square == 7 {
        CastlingRights { white_king_side: false, ..rights }
    } else if square == 56 {
        CastlingRights { black_queen_side: false, ..rights }
    } else if square == 63 {
        CastlingRights { black_king_side: false, ..rights }
    } else {
        rights
    }
}

/// Castling rights after the side castles.
pub open spec fn rights_after_castle(rights: CastlingRights, white: bool) -> CastlingRights {
    if white {
        CastlingRights { white_king_side: false, white_queen_side: false, ..rights }
    } else {
        CastlingRights { black_king_side: false, black_queen_side: false, ..rights }
    }
}

/// Start square of the rook when the king castles to `to`.
pub open spec fn castle_rook_from(to: int) -> int {
    if file_of(to) == 6 {
        to + 1
    } else {
        to - 2
    }
}

/// Target square of the rook when the king castles to `to`.
pub open spec fn castle_rook_to(to: int) -> int {
    if file_of(to) == 6 {
        to - 1
    } else {
        to + 1
    }
}

/// Square of the pawn taken en passant, given the en passant square.
pub open spec fn en_passant_capture(en_passant: int, white: bool) -> int {
    if white {
        en_passant - 8
    } else {
        en_passant + 8
    }
}

/// Index of the en passant square (0 when there is none).
pub open spec fn en_passant_index(state: GameState) -> int {
    match state.en_passant_square {
        Some(square) => square.0 as int,
        None => 0,
    }
}

/// Square skipped by a pawn that steps two ranks from `from`.
pub open spec fn skipped_square(from: int, white: bool) -> int {
    if white {
        from + 8
    } else {
        from - 8
    }
}

/// Whether the move can be made on the board: the pieces it moves stand
/// where it needs them and the squares it moves them to are free.
pub open spec fn can_make(v: BoardView, m: Move) -> bool {
    let white = v.white_to_move;
    let from = m.from.0 as int;
    let to = m.to.0 as int;
    &&& m.is_valid()
    &&& v.state.wf()
    &&& v.squares.len() == 64
    &&& from != to
    &&& match m.flag {
        Flag::Normal => of_side(v.squares[from], white) is Some && of_side(v.squares[to], white) is None,
        Flag::PawnTwoUp => {
            &&& v.squares[from] == Some(piece_of(0, white))
            &&& v.squares[to] is None
            &&& 0 <= skipped_square(from, white) < 64
        },
        Flag::Castle => {
            &&& v.squares[from] == Some(piece_of(5, white))
            &&& v.squares[to] is None
            &&& (file_of(to) == 6 || file_of(to) == 2)
            &&& v.squares[castle_rook_from(to)] == Some(piece_of(3, white))
            &&& v.squares[castle_rook_to(to)] is None
        },
        Flag::EnPassant => match v.state.en_passant_square {
            Some(ep) => {
                let capture = en_passant_capture(ep.0 as int, white);
                &&& v.squares[from] == Some(piece_of(0, white))
                &&& v.squares[to] is None
                &&& 0 <= capture < 64
                &&& capture != from
                &&& capture != to
                &&& v.squares[capture] == Some(piece_of(0, !white))
            },
            None => false,
        },
        _ => v.squares[from] == Some(piece_of(0, white)) && of_side(v.squares[to], white) is None,
    }
}

/// The board after making the move.
pub open spec fn made(v: BoardView, m: Move) -> BoardView {
    let white = v.white_to_move;
    let state = v.state;
    let from = m.from.0 as int;
    let to = m.to.0 as int;
    match m.flag {
        Flag::Normal => {
            let piece = v.squares[from]->0;
            let captured = v.squares[to];
            let rights = rights_after_corner(
                rights_after_king_move(state.castling_rights, piece),
                from,
            );
            BoardView {
                squares: v.squares.update(from, None).update(to, Some(piece)),
                white_to_move: !white,
                state: GameState {
                    castling_rights: if captured is Some {
                        rights_after_corner(rights, to)
                    } else {
                        rights
                    },
                    en_passant_square: None,
                    half_move_clock: if piece_kind(piece) == 0 || captured is Some {
                        0
                    } else {
                        (state.half_move_clock + 1) as u32
                    },
                    captured,
                },
            }
        },
        Flag::PawnTwoUp => BoardView {
            squares: v.squares.update(from, None).update(to, Some(piece_of(0, white))),
            white_to_move: !white,
            state: GameState {
                en_passant_square: Some(Square(skipped_square(from, white) as u8)),
                half_move_clock: 0,
                captured: None,
                ..state
            },
        },
        Flag::Castle => BoardView {
            squares: v.squares.update(from, None).update(to, Some(piece_of(5, white))).update(
                castle_rook_from(to),
                None,
            ).update(castle_rook_to(to), Some(piece_of(3, white))),
            white_to_move: !white,
            state: GameState {
                castling_rights: rights_after_castle(state.castling_rights, white),
                en_passant_square: None,
                half_move_clock: (state.half_move_clock + 1) as u32,
                ..state
            },
        },
        Flag::EnPassant => BoardView {
            squares: v.squares.update(from, None).update(to, Some(piece_of(0, white))).update(
                en_passant_capture(en_passant_index(state), white),
                None,
            ),
            white_to_move: !white,
            state: GameState {
                en_passant_square: None,
                half_move_clock: 0,
                captured: Some(piece_of(0, !white)),
                ..state
            },
        },
        _ => {
            let captured = v.squares[to];
            BoardView {
                squares: v.squares.update(from, None).update(to, promotion_piece(m.flag, white)),
                white_to_move: !white,
                state: GameState {
                    castling_rights: if captured is Some {
                        rights_after_corner(state.castling_rights, to)
                    } else {
                        state.castling_rights
                    },
                    en_passant_square: None,
                    half_move_clock: 0,
                    captured,
                },
            }
        },
    }
}

/// Whether the move can be taken back: the pieces it moved stand where it
/// put them and the squares it left are free.
pub open spec fn can_unmake(v: BoardView, m: Move, old_state: GameState) -> bool {
    let white = !v.white_to_move;
    let from = m.from.0 as int;
    let to = m.to.0 as int;
    &&& m.is_valid()
    &&& old_state.wf()
    &&& v.squares.len() == 64
    &&& from != to
    &&& v.squares[from] is None
    &&& match m.flag {
        Flag::Normal => of_side(v.squares[to], white) is Some,
        Flag::PawnTwoUp => v.squares[to] == Some(piece_of(0, white)),
        Flag::Castle => {
            &&& v.squares[to] == Some(piece_of(5, white))
            &&& (file_of(to) == 6 || file_of(to) == 2)
            &&& v.squares[castle_rook_to(to)] == Some(piece_of(3, white))
            &&& v.squares[castle_rook_from(to)] is None
            &&& castle_rook_from(to) != from
        },
        Flag::EnPassant => match old_state.en_passant_square {
            Some(ep) => {
                let capture = en_passant_capture(ep.0 as int, white);
                &&& v.squares[to] == Some(piece_of(0, white))
                &&& 0 <= capture < 64
                &&& capture != from
                &&& capture != to
                &&& v.squares[capture] is None
                &&& v.state.captured is Some
            },
            None => false,
        },
        _ => v.squares[to] == promotion_piece(m.flag, white),
    }
}

/// The board after taking the move back, given the game state from before it.
pub open spec fn unmade(v: BoardView, m: Move, old_state: GameState) -> BoardView {
    let white = !v.white_to_move;
    let capture = v.state.captured;
    let from = m.from.0 as int;
    let to = m.to.0 as int;
    let squares = match m.flag {
        Flag::Normal => v.squares.update(to, capture).update(from, v.squares[to]),
        Flag::PawnTwoUp => v.squares.update(to, None).update(from, Some(piece_of(0, white))),
        Flag::Castle => v.squares.update(to, None).update(from, Some(piece_of(5, white))).update(
            castle_rook_to(to),
            None,
        ).update(castle_rook_from(to), Some(piece_of(3, white))),
        Flag::EnPassant => v.squares.update(to, None).update(from, Some(piece_of(0, white))).update(
            en_passant_capture(en_passant_index(old_state), white),
            capture,
        ),
        _ => v.squares.update(to, capture).update(from, Some(piece_of(0, white))),
    };
    BoardView { squares, white_to_move: white, state: old_state }
}

/// Taking a move back, with the game state from before it, gives back the
/// board the move was made on.
pub proof fn lemma_unmake_inverts_make(v: BoardView, m: Move)
    requires
        can_make(v, m),
    ensures
        can_unmake(made(v, m), m, v.state),
        unmade(made(v, m), m, v.state) == v,
{
    let from = m.from.0 as int;
    let to = m.to.0 as int;
    let after = made(v, m);
    let back = unmade(after, m, v.state);
    assert(back.squares =~= v.squares);
    assert(back =~= v);
}

/// What `unmake_move` needs to run at all.
pub open spec fn unmake_move_runs(board: Board, m: Move, old_state: GameState) -> bool {
    let white = !board.white_to_move;
    let to = m.to.0 as int;
    &&& m.is_valid()
    &&& old_state.wf()
    &&& match m.flag {
        Flag::Normal => (if white {
            board.spec_white_piece_at(to)
        } else {
            board.spec_black_piece_at(to)
        }) is Some,
        Flag::Castle => file_of(to) == 6 || 2 <= to <= 62,
        Flag::EnPassant => {
            &&& board.game_state.captured is Some
            &&& match old_state.en_passant_square {
                Some(ep) => 0 <= en_passant_capture(ep.0 as int, white) < 64,
                None => false,
            }
        },
        _ => true,
    }
}

/// On a well-formed board, a move that can be taken back also runs.
pub proof fn lemma_can_unmake_runs(board: Board, m: Move, old_state: GameState)
    requires
        board.wf(),
        can_unmake(board@, m, old_state),
    ensures
        unmake_move_runs(board, m, old_state),
{
    board.lemma_piece_at(m.to.0 as int);
}

/// Making a move on a well-formed board and taking it back gives back the
/// same bit boards, side to move and game state.
pub proof fn lemma_make_unmake_restores(before: Board, after_make: Board, after_unmake: Board, m: Move)
    requires
        before.wf(),
        can_make(before@, m),
        after_make@ == made(before@, m),
        after_unmake.wf(),
        after_unmake@ == unmade(after_make@, m, before.game_state),
    ensures
        after_unmake.bit_boards@ == before.bit_boards@,
        after_unmake.white_to_move == before.white_to_move,
        after_unmake.game_state == before.game_state,
{
    lemma_unmake_inverts_make(before@, m);
    after_unmake.lemma_view_determines_board(before);
}

/// The half move clock after a move: back to 0 when a pawn moves or a piece
/// is taken, and one more than before for any other move, castling included.
pub proof fn lemma_half_move_clock(v: BoardView, m: Move)
    requires
        can_make(v, m),
        v.state.half_move_clock < u32::MAX,
    ensures
        made(v, m).state.half_move_clock == (if piece_kind(v.squares[m.from.0 as int]->0) == 0 || m.flag
            == Flag::EnPassant || v.squares[m.to.0 as int] is Some {
            0
        } else {
            v.state.half_move_clock + 1
        }),
{
    let white = v.white_to_move;
    let pawn_index: int = if white { 0 } else { 6 };
    let king_index: int = if white { 5 } else { 11 };
    lemma_piece_index(piece_of(0, white), pawn_index);
    lemma_piece_index(piece_of(5, white), king_index);
}

/// What `make_move` needs to run at all: the squares it computes are on
/// the board, the pieces it looks up exist, and the half move clock does
/// not overflow where the move adds to it (a move of a piece other than a
/// pawn, counted before a capture sets it back, and castling).
pub open spec fn make_move_runs(board: Board, m: Move) -> bool {
    let white = board.white_to_move;
    let from = m.from.0 as int;
    let to = m.to.0 as int;
    &&& m.is_valid()
    &&& board.game_state.wf()
    &&& match m.flag {
        Flag::Normal => match board.spec_friendly_piece_at(from) {
            Some(piece) => piece_kind(piece) != 0 ==> board.game_state.half_move_clock < u32::MAX,
            None => false,
        },
        Flag::PawnTwoUp => 0 <= skipped_square(from, white) < 64,
        Flag::Castle => (file_of(to) == 6 || 2 <= to <= 62) && board.game_state.half_move_clock < u32::MAX,
        Flag::EnPassant => match board.game_state.en_passant_square {
            Some(ep) => 0 <= en_passant_capture(ep.0 as int, white) < 64,
            None => false,
        },
        _ => true,
    }
}

/// On a well-formed board, a move that can be made also runs.
pub proof fn lemma_can_make_runs(board: Board, m: Move)
    requires
        board.wf(),
        can_make(board@, m),
        board.game_state.half_move_clock < u32::MAX,
    ensures
        make_move_runs(board, m),
{
    board.lemma_piece_at(m.from.0 as int);
}

/// What the part of `make_move` for one kind of move guarantees: the game
/// state stays well formed, and on a well-formed board where the move can be
/// made the pieces and the game state are those of `made`.
pub open spec fn made_bits_and_state(before: Board, after: Board, m: Move) -> bool {
    &&& after.white_to_move == before.white_to_move
    &&& after.game_state.wf()
    &&& before.wf() && can_make(before@, m) ==> {
        &&& after.wf()
        &&& after@.squares == made(before@, m).squares
        &&& after.game_state == made(before@, m).state
    }
}

impl CastlingRights {
    /// Takes away the castling rights of a king that moves.
    pub fn king_moved(&mut self, piece: Piece)
        ensures
            *final(self) == rights_after_king_move(*old(self), piece),
    {
        if piece == Piece::WhiteKing {
            self.unset_white_king_side();
            self.unset_white_queen_side();
        } else if piece == Piece::BlackKing {
            self.unset_black_king_side();
            self.unset_black_queen_side();
        }
    }

    /// Takes away the castling right of the rook's corner when a move leaves
    /// or lands on it.
    pub fn corner_touched(&mut self, square: Square)
        ensures
            *final(self) == rights_after_corner(*old(self), square.0 as int),
    {
        if square.0 == 0 {
            self.unset_white_queen_side();
        } else if square.0 == 7 {
            self.unset_white_king_side();
        } else if square.0 == 56 {
            self.unset_black_queen_side();
        } else if square.0 == 63 {
            self.unset_black_king_side();
        }
    }
}

impl Board {
    /// Makes the move and returns the game state from before it, which
    /// `unmake_move` needs to take the move back.
    ///
    /// A normal move needs a piece of the side to move on its start square,
    /// and an en passant move an en passant square (see `make_move_runs`).
    pub fn make_move(&mut self, move_data: &Move) -> (old_state: GameState)
        requires
            make_move_runs(*old(self), *move_data),
        ensures
            old_state == old(self).game_state,
            final(self).white_to_move == !old(self).white_to_move,
            final(self).game_state.wf(),
            old(self).wf() && can_make(old(self)@, *move_data) ==> final(self).wf() && final(self)@
                == made(old(self)@, *move_data),
    {
        let ghost before = *self;
        let old_state = self.game_state;
        let white_to_move = self.white_to_move;

        match move_data.flag {
            Flag::Normal => self.make_normal(move_data),
            Flag::PawnTwoUp => self.make_pawn_two_up(move_data),
            Flag::Castle => self.make_castle(move_data),
            Flag::EnPassant => self.make_en_passant(move_data),
            Flag::QueenPromotion | Flag::RookPromotion | Flag::BishopPromotion
            | Flag::KnightPromotion => self.make_promotion(move_data),
        }

        let ghost unflipped = *self;
        self.white_to_move = !white_to_move;
        proof {
            lemma_same_bits(*self, unflipped);
            if before.wf() && can_make(before@, *move_data) {
                assert(self@ =~= made(before@, *move_data));
            }
        }
        old_state
    }

    fn make_normal(&mut self, move_data: &Move)
        requires
            make_move_runs(*old(self), *move_data),
            move_data.flag == Flag::Normal,
        ensures
            made_bits_and_state(*old(self), *final(self), *move_data),
    {
        let ghost before = *self;
        let from = move_data.from;
        let to = move_data.to;
        let piece = self.friendly_piece_at(from).unwrap();
        let captured = self.enemy_piece_at(to);

        if piece == Piece::WhitePawn || piece == Piece::BlackPawn {
            self.game_state.half_move_clock = 0;
        } else {
            self.game_state.half_move_clock = self.game_state.half_move_clock + 1;
        }
        self.game_state.castling_rights.king_moved(piece);
        self.game_state.castling_rights.corner_touched(from);
        self.game_state.en_passant_square = None;
        self.game_state.captured = captured;
        if captured.is_some() {
            self.game_state.castling_rights.corner_touched(to);
            self.game_state.half_move_clock = 0;
        }
        assert(self.bit_boards@ == before.bit_boards@);
        self.toggle_two_squares(piece, from, to);
        if let Some(captured) = captured {
            self.toggle_square(captured, to);
        }
        proof {
            if before.wf() && can_make(before@, *move_data) {
                before.lemma_piece_at(from.0 as int);
                before.lemma_piece_at(to.0 as int);
                lemma_make_normal(before, *self, *move_data, piece, captured);
            }
        }
    }

    fn make_pawn_two_up(&mut self, move_data: &Move)
        requires
            make_move_runs(*old(self), *move_data),
            move_data.flag == Flag::PawnTwoUp,
        ensures
            made_bits_and_state(*old(self), *final(self), *move_data),
    {
        let ghost before = *self;
        let white_to_move = self.white_to_move;
        let from = move_data.from;
        let to = move_data.to;
        let piece = if white_to_move {
            Piece::WhitePawn
        } else {
            Piece::BlackPawn
        };
        self.game_state.half_move_clock = 0;
        let en_passant_square = from.up(if white_to_move { 1 } else { -1 });
        self.game_state.en_passant_square = Some(en_passant_square);
        self.game_state.captured = None;
        assert(self.bit_boards@ == before.bit_boards@);
        self.toggle_two_squares(piece, from, to);
        proof {
            if before.wf() && can_make(before@, *move_data) {
                lemma_make_two_up(before, *self, *move_data);
            }
        }
    }

    fn make_castle(&mut self, move_data: &Move)
        requires
            make_move_runs(*old(self), *move_data),
            move_data.flag == Flag::Castle,
        ensures
            made_bits_and_state(*old(self), *final(self), *move_data),
    {
        let ghost before = *self;
        let white_to_move = self.white_to_move;
        let from = move_data.from;
        let to = move_data.to;
        let piece = if white_to_move {
            Piece::WhiteKing
        } else {
            Piece::BlackKing
        };
        self.game_state.half_move_clock = self.game_state.half_move_clock + 1;
        if white_to_move {
            self.game_state.castling_rights.unset_white_king_side();
            self.game_state.castling_rights.unset_white_queen_side();
        } else {
            self.game_state.castling_rights.unset_black_king_side();
            self.game_state.castling_rights.unset_black_queen_side();
        }
        self.game_state.en_passant_square = None;
        assert(self.bit_boards@ == before.bit_boards@);
        self.toggle_two_squares(piece, from, to);

        let is_king_side = to.file() == 6;
        let rook_to_offset: i8 = if is_king_side { -1 } else { 1 };
        let rook_from_offset: i8 = if is_king_side { 1 } else { -2 };
        let rook = if white_to_move {
            Piece::WhiteRook
        } else {
            Piece::BlackRook
        };
        let rook_from = to.offset(rook_from_offset);
        let rook_to = to.offset(rook_to_offset);
        self.toggle_two_squares(rook, rook_from, rook_to);
        proof {
            if before.wf() && can_make(before@, *move_data) {
                lemma_make_castle(before, *self, *move_data);
            }
        }
    }

    fn make_en_passant(&mut self, move_data: &Move)
        requires
            make_move_runs(*old(self), *move_data),
            move_data.flag == Flag::EnPassant,
        ensures
            made_bits_and_state(*old(self), *final(self), *move_data),
    {
        let ghost before = *self;
        let white_to_move = self.white_to_move;
        let from = move_data.from;
        let to = move_data.to;
        let piece = if white_to_move {
            Piece::WhitePawn
        } else {
            Piece::BlackPawn
        };
        self.game_state.half_move_clock = 0;
        let capture_position = self.game_state.en_passant_square.unwrap().down(
            if white_to_move { 1 } else { -1 },
        );
        let captured = if white_to_move {
            Piece::BlackPawn
        } else {
            Piece::WhitePawn
        };
        self.game_state.captured = Some(captured);
        self.game_state.en_passant_square = None;
        assert(self.bit_boards@ == before.bit_boards@);
        self.toggle_two_squares(piece, from, to);
        self.toggle_square(captured, capture_position);
        proof {
            if before.wf() && can_make(before@, *move_data) {
                lemma_make_en_passant(before, *self, *move_data);
            }
        }
    }

    fn make_promotion(&mut self, move_data: &Move)
        requires
            make_move_runs(*old(self), *move_data),
            promotion_piece(move_data.flag, old(self).white_to_move) is Some,
        ensures
            made_bits_and_state(*old(self), *final(self), *move_data),
    {
        let ghost before = *self;
        let white_to_move = self.white_to_move;
        let from = move_data.from;
        let to = move_data.to;
        let piece = if white_to_move {
            Piece::WhitePawn
        } else {
            Piece::BlackPawn
        };
        let captured = self.enemy_piece_at(to);
        self.game_state.half_move_clock = 0;
        let promotion_piece = move_data.flag.get_promotion_piece(white_to_move).unwrap();
        self.game_state.en_passant_square = None;
        self.game_state.captured = captured;
        if captured.is_some() {
            self.game_state.castling_rights.corner_touched(to);
        }
        assert(self.bit_boards@ == before.bit_boards@);
        self.toggle_square(piece, from);
        self.set_square(promotion_piece, to);
        if let Some(captured) = captured {
            self.toggle_square(captured, to);
        }
        proof {
            if before.wf() && can_make(before@, *move_data) {
                before.lemma_piece_at(to.0 as int);
                lemma_make_promotion(before, *self, *move_data, captured);
            }
        }
    }
}

proof fn lemma_make_normal(old: Board, new: Board, m: Move, piece: Piece, captured: Option<Piece>)
    requires
        old.wf(),
        can_make(old@, m),
        m.flag == Flag::Normal,
        Some(piece) == old.spec_friendly_piece_at(m.from.0 as int),
        captured == old.spec_enemy_piece_at(m.to.0 as int),
        new.game_state.wf(),
        forall|q: int, i: int|
            0 <= q < 12 && 0 <= i < 64 ==> #[trigger] new.has_piece(q, i) == ((old.has_piece(q, i)
                != (q == piece_index(piece) && ((i == m.from.0) != (i == m.to.0)))) != (
            captured is Some && q == piece_index(captured->0) && i == m.to.0)),
    ensures
        new.wf(),
        new@.squares == made(old@, m).squares,
{
    let from = m.from.0 as int;
    let to = m.to.0 as int;
    let target = made(old@, m).squares;
    old.lemma_piece_at(from);
    old.lemma_piece_at(to);
    assert(old@.squares[from] == Some(piece));
    assert(captured == old@.squares[to]);
    assert forall|q: int, i: int| 0 <= q < 12 && 0 <= i < 64 implies #[trigger] new.has_piece(q, i)
        == (target[i] == Some(piece_from_index(q))) by {
        old.lemma_piece_at(i);
        lemma_index_names(q, piece);
        if let Some(c) = captured {
            lemma_index_names(q, c);
        }
        if let Some(x) = old@.squares[i] {
            lemma_index_names(q, x);
        }
    }
    lemma_bits_to_view(new, target);
}

proof fn lemma_make_two_up(old: Board, new: Board, m: Move)
    requires
        old.wf(),
        can_make(old@, m),
        m.flag == Flag::PawnTwoUp,
        new.game_state.wf(),
        forall|q: int, i: int|
            0 <= q < 12 && 0 <= i < 64 ==> #[trigger] new.has_piece(q, i) == (old.has_piece(q, i)
                != (q == piece_index(piece_of(0, old.white_to_move)) && ((i == m.from.0) != (i == m.to.0)))),
    ensures
        new.wf(),
        new@.squares == made(old@, m).squares,
{
    let target = made(old@, m).squares;
    let pawn = piece_of(0, old.white_to_move);
    assert forall|q: int, i: int| 0 <= q < 12 && 0 <= i < 64 implies #[trigger] new.has_piece(q, i)
        == (target[i] == Some(piece_from_index(q))) by {
        old.lemma_piece_at(i);
        lemma_index_names(q, pawn);
        if let Some(x) = old@.squares[i] {
            lemma_index_names(q, x);
        }
    }
    lemma_bits_to_view(new, target);
}

proof fn lemma_make_castle(old: Board, new: Board, m: Move)
    requires
        old.wf(),
        can_make(old@, m),
        m.flag == Flag::Castle,
        new.game_state.wf(),
        forall|q: int, i: int|
            0 <= q < 12 && 0 <= i < 64 ==> #[trigger] new.has_piece(q, i) == ((old.has_piece(q, i)
                != (q == piece_index(piece_of(5, old.white_to_move)) && ((i == m.from.0) != (i == m.to.0))))
                != (q == piece_index(piece_of(3, old.white_to_move)) && ((i == castle_rook_from(m.to.0 as int)) != (i
                == castle_rook_to(m.to.0 as int))))),
    ensures
        new.wf(),
        new@.squares == made(old@, m).squares,
{
    let target = made(old@, m).squares;
    let king = piece_of(5, old.white_to_move);
    let rook = piece_of(3, old.white_to_move);
    assert forall|q: int, i: int| 0 <= q < 12 && 0 <= i < 64 implies #[trigger] new.has_piece(q, i)
        == (target[i] == Some(piece_from_index(q))) by {
        old.lemma_piece_at(i);
        lemma_index_names(q, king);
        lemma_index_names(q, rook);
        if let Some(x) = old@.squares[i] {
            lemma_index_names(q, x);
        }
    }
    lemma_bits_to_view(new, target);
}

proof fn lemma_make_en_passant(old: Board, new: Board, m: Move)
    requires
        old.wf(),
        can_make(old@, m),
        m.flag == Flag::EnPassant,
        new.game_state.wf(),
        forall|q: int, i: int|
            0 <= q < 12 && 0 <= i < 64 ==> #[trigger] new.has_piece(q, i) == ((old.has_piece(q, i)
                != (q == piece_index(piece_of(0, old.white_to_move)) && ((i == m.from.0) != (i == m.to.0))))
                != (q == piece_index(piece_of(0, !old.white_to_move)) && i == en_passant_capture(
                en_passant_index(old.game_state),
                old.white_to_move,
            ))),
    ensures
        new.wf(),
        new@.squares == made(old@, m).squares,
{
    let target = made(old@, m).squares;
    let pawn = piece_of(0, old.white_to_move);
    let enemy_pawn = piece_of(0, !old.white_to_move);
    assert forall|q: int, i: int| 0 <= q < 12 && 0 <= i < 64 implies #[trigger] new.has_piece(q, i)
        == (target[i] == Some(piece_from_index(q))) by {
        old.lemma_piece_at(i);
        lemma_index_names(q, pawn);
        lemma_index_names(q, enemy_pawn);
        if let Some(x) = old@.squares[i] {
            lemma_index_names(q, x);
        }
    }
    lemma_bits_to_view(new, target);
}

proof fn lemma_make_promotion(old: Board, new: Board, m: Move, captured: Option<Piece>)
    requires
        old.wf(),
        can_make(old@, m),
        promotion_piece(m.flag, old.white_to_move) is Some,
        captured == old.spec_enemy_piece_at(m.to.0 as int),
        new.game_state.wf(),
        forall|q: int, i: int|
            0 <= q < 12 && 0 <= i < 64 ==> #[trigger] new.has_piece(q, i) == (((old.has_piece(q, i)
                != (q == piece_index(piece_of(0, old.white_to_move)) && i == m.from.0)) || (q
                == piece_index(promotion_piece(m.flag, old.white_to_move)->0) && i == m.to.0)) != (captured is Some
                && q == piece_index(captured->0) && i == m.to.0)),
    ensures
        new.wf(),
        new@.squares == made(old@, m).squares,
{
    let to = m.to.0 as int;
    let target = made(old@, m).squares;
    let pawn = piece_of(0, old.white_to_move);
    let promoted = promotion_piece(m.flag, old.white_to_move)->0;
    old.lemma_piece_at(to);
    assert(captured == old@.squares[to]);
    assert forall|q: int, i: int| 0 <= q < 12 && 0 <= i < 64 implies #[trigger] new.has_piece(q, i)
        == (target[i] == Some(piece_from_index(q))) by {
        old.lemma_piece_at(i);
        lemma_index_names(q, pawn);
        lemma_index_names(q, promoted);
        if let Some(c) = captured {
            lemma_index_names(q, c);
        }
        if let Some(x) = old@.squares[i] {
            lemma_index_names(q, x);
        }
    }
    lemma_bits_to_view(new, target);
}

impl Board {
    /// Takes back a move made with `make_move`, given the game state it returned.
    ///
    /// A normal move needs a piece of the side that moved on its target
    /// square, and an en passant move a recorded capture (see `unmake_move_runs`).
    pub fn unmake_move(&mut self, move_data: &Move, old_state: &GameState)
        requires
            unmake_move_runs(*old(self), *move_data, *old_state),
        ensures
            final(self).game_state == *old_state,
            final(self).white_to_move == !old(self).white_to_move,
            old(self).wf() && can_unmake(old(self)@, *move_data, *old_state) ==> final(self).wf()
                && final(self)@ == unmade(old(self)@, *move_data, *old_state),
    {
        let ghost before = *self;
        let capture = self.game_state.captured;
        self.game_state = *old_state;
        let white_to_move = !self.white_to_move;
        self.white_to_move = white_to_move;
        let from = move_data.from;
        let to = move_data.to;
        let flag = move_data.flag;
        let pawn = if white_to_move {
            Piece::WhitePawn
        } else {
            Piece::BlackPawn
        };
        assert(self.bit_boards@ == before.bit_boards@);
        let ghost flipped = *self;
        proof {
            lemma_same_bits(before, flipped);
        }

        match flag {
            Flag::Normal => {
                let moving = self.friendly_piece_at(to).unwrap();
                self.toggle_two_squares(moving, from, to);
                if let Some(capture) = capture {
                    self.set_square(capture, to);
                }
                proof {
                    if before.wf() && can_unmake(before@, *move_data, *old_state) {
                        lemma_unmake_normal(before, *self, *move_data, *old_state, moving);
                    }
                }
            },
            Flag::PawnTwoUp => {
                self.toggle_two_squares(pawn, from, to);
                proof {
                    if before.wf() && can_unmake(before@, *move_data, *old_state) {
                        lemma_unmake_two_up(before, *self, *move_data, *old_state);
                    }
                }
            },
            Flag::RookPromotion | Flag::BishopPromotion | Flag::KnightPromotion
            | Flag::QueenPromotion => {
                self.set_square(pawn, from);
                self.toggle_square(flag.get_promotion_piece(white_to_move).unwrap(), to);
                if let Some(capture) = capture {
                    self.set_square(capture, to);
                }
                proof {
                    if before.wf() && can_unmake(before@, *move_data, *old_state) {
                        lemma_unmake_promotion(before, *self, *move_data, *old_state);
                    }
                }
            },
            Flag::EnPassant => {
                let capture_position = self.game_state.en_passant_square.unwrap().down(
                    if white_to_move { 1 } else { -1 },
                );
                self.set_square(capture.unwrap(), capture_position);
                self.toggle_two_squares(pawn, from, to);
                proof {
                    if before.wf() && can_unmake(before@, *move_data, *old_state) {
                        lemma_unmake_en_passant(before, *self, *move_data, *old_state);
                    }
                }
            },
            Flag::Castle => {
                let is_king_side = to.file() == 6;
                let rook_to_offset: i8 = if is_king_side { -1 } else { 1 };
                let rook_from_offset: i8 = if is_king_side { 1 } else { -2 };
                let rook = if white_to_move {
                    Piece::WhiteRook
                } else {
                    Piece::BlackRook
                };
                self.toggle_two_squares(rook, to.offset(rook_from_offset), to.offset(rook_to_offset));
                let king = if white_to_move {
                    Piece::WhiteKing
                } else {
                    Piece::BlackKing
                };
                self.toggle_two_squares(king, from, to);
                proof {
                    if before.wf() && can_unmake(before@, *move_data, *old_state) {
                        lemma_unmake_castle(before, *self, *move_data, *old_state);
                    }
                }
            },
        }
        proof {
            if before.wf() && can_unmake(before@, *move_data, *old_state) {
                assert(self@ =~= unmade(before@, *move_data, *old_state));
            }
        }
    }
}

proof fn lemma_unmake_normal(old: Board, new: Board, m: Move, old_state: GameState, moving: Piece)
    requires
        old.wf(),
        can_unmake(old@, m, old_state),
        m.flag == Flag::Normal,
        new.game_state == old_state,
        Some(moving) == (if old.white_to_move {
            old.spec_black_piece_at(m.to.0 as int)
        } else {
            old.spec_white_piece_at(m.to.0 as int)
        }),
        forall|q: int, i: int|
            0 <= q < 12 && 0 <= i < 64 ==> #[trigger] new.has_piece(q, i) == ((old.has_piece(q, i)
                != (q == piece_index(moving) && ((i == m.from.0) != (i == m.to.0)))) || (
            old.game_state.captured is Some && q == piece_index(old.game_state.captured->0) && i
                == m.to.0)),
    ensures
        new.wf(),
        new@.squares == unmade(old@, m, old_state).squares,
{
    let target = unmade(old@, m, old_state).squares;
    old.lemma_piece_at(m.to.0 as int);
    old.lemma_piece_at(m.from.0 as int);
    assert forall|q: int, i: int| 0 <= q < 12 && 0 <= i < 64 implies #[trigger] new.has_piece(q, i)
        == (target[i] == Some(piece_from_index(q))) by {
        old.lemma_piece_at(i);
        lemma_index_names(q, moving);
        if let Some(c) = old.game_state.captured {
            lemma_index_names(q, c);
        }
        if let Some(x) = old@.squares[i] {
            lemma_index_names(q, x);
        }
    }
    lemma_bits_to_view(new, target);
}

proof fn lemma_unmake_two_up(old: Board, new: Board, m: Move, old_state: GameState)
    requires
        old.wf(),
        can_unmake(old@, m, old_state),
        m.flag == Flag::PawnTwoUp,
        new.game_state == old_state,
        forall|q: int, i: int|
            0 <= q < 12 && 0 <= i < 64 ==> #[trigger] new.has_piece(q, i) == (old.has_piece(q, i)
                != (q == piece_index(piece_of(0, !old.white_to_move)) && ((i == m.from.0) != (i == m.to.0)))),
    ensures
        new.wf(),
        new@.squares == unmade(old@, m, old_state).squares,
{
    let target = unmade(old@, m, old_state).squares;
    let pawn = piece_of(0, !old.white_to_move);
    assert forall|q: int, i: int| 0 <= q < 12 && 0 <= i < 64 implies #[trigger] new.has_piece(q, i)
        == (target[i] == Some(piece_from_index(q))) by {
        old.lemma_piece_at(i);
        lemma_index_names(q, pawn);
        if let Some(x) = old@.squares[i] {
            lemma_index_names(q, x);
        }
    }
    lemma_bits_to_view(new, target);
}

proof fn lemma_unmake_promotion(old: Board, new: Board, m: Move, old_state: GameState)
    requires
        old.wf(),
        can_unmake(old@, m, old_state),
        promotion_piece(m.flag, !old.white_to_move) is Some,
        new.game_state == old_state,
        forall|q: int, i: int|
            0 <= q < 12 && 0 <= i < 64 ==> #[trigger] new.has_piece(q, i) == (((old.has_piece(q, i) || (q
                == piece_index(piece_of(0, !old.white_to_move)) && i == m.from.0)) != (q == piece_index(
                promotion_piece(m.flag, !old.white_to_move)->0,
            ) && i == m.to.0)) || (old.game_state.captured is Some && q == piece_index(
                old.game_state.captured->0,
            ) && i == m.to.0)),
    ensures
        new.wf(),
        new@.squares == unmade(old@, m, old_state).squares,
{
    let target = unmade(old@, m, old_state).squares;
    let pawn = piece_of(0, !old.white_to_move);
    let promoted = promotion_piece(m.flag, !old.white_to_move)->0;
    assert forall|q: int, i: int| 0 <= q < 12 && 0 <= i < 64 implies #[trigger] new.has_piece(q, i)
        == (target[i] == Some(piece_from_index(q))) by {
        old.lemma_piece_at(i);
        lemma_index_names(q, pawn);
        lemma_index_names(q, promoted);
        if let Some(c) = old.game_state.captured {
            lemma_index_names(q, c);
        }
        if let Some(x) = old@.squares[i] {
            lemma_index_names(q, x);
        }
    }
    lemma_bits_to_view(new, target);
}

proof fn lemma_unmake_en_passant(old: Board, new: Board, m: Move, old_state: GameState)
    requires
        old.wf(),
        can_unmake(old@, m, old_state),
        m.flag == Flag::EnPassant,
        new.game_state == old_state,
        forall|q: int, i: int|
            0 <= q < 12 && 0 <= i < 64 ==> #[trigger] new.has_piece(q, i) == ((old.has_piece(q, i) || (q
                == piece_index(old.game_state.captured->0) && i == en_passant_capture(
                en_passant_index(old_state),
                !old.white_to_move,
            ))) != (q == piece_index(piece_of(0, !old.white_to_move)) && ((i == m.from.0) != (i == m.to.0)))),
    ensures
        new.wf(),
        new@.squares == unmade(old@, m, old_state).squares,
{
    let target = unmade(old@, m, old_state).squares;
    let pawn = piece_of(0, !old.white_to_move);
    let c = old.game_state.captured->0;
    assert forall|q: int, i: int| 0 <= q < 12 && 0 <= i < 64 implies #[trigger] new.has_piece(q, i)
        == (target[i] == Some(piece_from_index(q))) by {
        old.lemma_piece_at(i);
        lemma_index_names(q, pawn);
        lemma_index_names(q, c);
        if let Some(x) = old@.squares[i] {
            lemma_index_names(q, x);
        }
    }
    lemma_bits_to_view(new, target);
}

proof fn lemma_unmake_castle(old: Board, new: Board, m: Move, old_state: GameState)
    requires
        old.wf(),
        can_unmake(old@, m, old_state),
        m.flag == Flag::Castle,
        new.game_state == old_state,
        forall|q: int, i: int|
            0 <= q < 12 && 0 <= i < 64 ==> #[trigger] new.has_piece(q, i) == ((old.has_piece(q, i)
                != (q == piece_index(piece_of(3, !old.white_to_move)) && ((i == castle_rook_from(m.to.0 as int))
                != (i == castle_rook_to(m.to.0 as int))))) != (q == piece_index(piece_of(5, !old.white_to_move))
                && ((i == m.from.0) != (i == m.to.0)))),
    ensures
        new.wf(),
        new@.squares == unmade(old@, m, old_state).squares,
{
    let target = unmade(old@, m, old_state).squares;
    let king = piece_of(5, !old.white_to_move);
    let rook = piece_of(3, !old.white_to_move);
    assert forall|q: int, i: int| 0 <= q < 12 && 0 <= i < 64 implies #[trigger] new.has_piece(q, i)
        == (target[i] == Some(piece_from_index(q))) by {
        old.lemma_piece_at(i);
        lemma_index_names(q, king);
        lemma_index_names(q, rook);
        if let Some(x) = old@.squares[i] {
            lemma_index_names(q, x);
        }
    }
    lemma_bits_to_view(new, target);
}

/// The position after the side to move passes: the other side moves, no en
/// passant capture is possible, and the half move clock starts again (a
/// pass cannot be repeated across, so earlier positions no longer count as
/// repetitions).
pub open spec fn null_made(v: BoardView) -> BoardView {
    BoardView {
        squares: v.squares,
        white_to_move: !v.white_to_move,
        state: GameState { en_passant_square: None, half_move_clock: 0, captured: None, ..v.state },
    }
}

impl Board {
    /// Passes the turn to the other side; returns the game state from before,
    /// which `unmake_null_move` needs.
    pub fn make_null_move(&mut self) -> (old_state: GameState)
        ensures
            old_state == old(self).game_state,
            final(self).bit_boards == old(self).bit_boards,
            final(self).white_to_move == !old(self).white_to_move,
            final(self).game_state == null_made(old(self)@).state,
            old(self).wf() ==> final(self).wf() && final(self)@ == null_made(old(self)@),
    {
        let ghost before = *self;
        let old_state = self.game_state;
        self.game_state = GameState {
            en_passant_square: None,
            half_move_clock: 0,
            captured: None,
            ..old_state
        };
        self.white_to_move = !self.white_to_move;
        proof {
            lemma_same_bits(before, *self);
            if before.wf() {
                assert(self@ =~= null_made(before@));
            }
        }
        old_state
    }

    /// Takes back a pass made with `make_null_move`, given the game state it returned.
    pub fn unmake_null_move(&mut self, old_state: &GameState)
        ensures
            final(self).bit_boards == old(self).bit_boards,
            final(self).white_to_move == !old(self).white_to_move,
            final(self).game_state == *old_state,
            old(self).wf() && old_state.wf() ==> final(self).wf(),
    {
        let ghost before = *self;
        self.game_state = *old_state;
        self.white_to_move = !self.white_to_move;
        proof {
            lemma_same_bits(before, *self);
        }
    }
}

/// Passing and taking the pass back gives back the same board.
pub proof fn lemma_null_move_restores(before: Board, after_pass: Board, after_unmake: Board)
    requires
        after_pass.bit_boards == before.bit_boards,
        after_pass.white_to_move == !before.white_to_move,
        after_unmake.bit_boards == after_pass.bit_boards,
        after_unmake.white_to_move == !after_pass.white_to_move,
        after_unmake.game_state == before.game_state,
    ensures
        after_unmake == before,
{
}

} // verus!

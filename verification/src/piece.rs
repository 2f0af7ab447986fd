//! Chess pieces of both colours.

use vstd::prelude::*;

verus! {

/// A piece and its colour. White pieces come first, then black, each in the
/// order pawn, knight, bishop, rook, queen, king.
#[derive(Clone, Copy, PartialEq, Eq, Structural, Debug, Hash)]
pub enum Piece {
    WhitePawn,
    WhiteKnight,
    WhiteBishop,
    WhiteRook,
    WhiteQueen,
    WhiteKing,
    BlackPawn,
    BlackKnight,
    BlackBishop,
    BlackRook,
    BlackQueen,
    BlackKing,
}

/// Position of a piece in the order of `Piece`, from 0 to 11.
pub open spec fn piece_index(piece: Piece) -> int {
    match piece {
        Piece::WhitePawn => 0,
        Piece::WhiteKnight => 1,
        Piece::WhiteBishop => 2,
        Piece::WhiteRook => 3,
        Piece::WhiteQueen => 4,
        Piece::WhiteKing => 5,
        Piece::BlackPawn => 6,
        Piece::BlackKnight => 7,
        Piece::BlackBishop => 8,
        Piece::BlackRook => 9,
        Piece::BlackQueen => 10,
        Piece::BlackKing => 11,
    }
}

/// The piece at a position of the order of `Piece` (indices from 0 to 11).
pub open spec fn piece_from_index(index: int) -> Piece {
    if index == 0 {
        Piece::WhitePawn
    } else if index == 1 {
        Piece::WhiteKnight
    } else if index == 2 {
        Piece::WhiteBishop
    } else if index == 3 {
        Piece::WhiteRook
    } else if index == 4 {
        Piece::WhiteQueen
    } else if index == 5 {
        Piece::WhiteKing
    } else if index == 6 {
        Piece::BlackPawn
    } else if index == 7 {
        Piece::BlackKnight
    } else if index == 8 {
        Piece::BlackBishop
    } else if index == 9 {
        Piece::BlackRook
    } else if index == 10 {
        Piece::BlackQueen
    } else {
        Piece::BlackKing
    }
}

/// Whether the piece is white.
pub open spec fn piece_is_white(piece: Piece) -> bool {
    piece_index(piece) < 6
}

/// Kind of the piece regardless of colour: 0 pawn, 1 knight, 2 bishop,
/// 3 rook, 4 queen, 5 king.
pub open spec fn piece_kind(piece: Piece) -> int {
    piece_index(piece) % 6
}

/// The piece of the given kind (0 to 5) and colour.
pub open spec fn piece_of(kind: int, white: bool) -> Piece {
    piece_from_index(if white { kind } else { kind + 6 })
}

/// Index and piece correspond one to one.
pub proof fn lemma_piece_index(piece: Piece, index: int)
    ensures
        0 <= piece_index(piece) < 12,
        piece_from_index(piece_index(piece)) == piece,
        0 <= index < 12 ==> piece_index(piece_from_index(index)) == index,
{
}

/// A piece index names a piece exactly when it is that piece's index.
pub proof fn lemma_index_names(q: int, piece: Piece)
    requires
        0 <= q < 12,
    ensures
        (piece_from_index(q) == piece) == (q == piece_index(piece)),
{
    lemma_piece_index(piece, q);
    lemma_piece_index(piece_from_index(q), q);
}

impl Piece {
    /// Position of the piece in the order of `Piece`.
    pub fn index(self) -> (index: usize)
        ensures
            index == piece_index(self),
            index < 12,
    {
        match self {
            Piece::WhitePawn => 0,
            Piece::WhiteKnight => 1,
            Piece::WhiteBishop => 2,
            Piece::WhiteRook => 3,
            Piece::WhiteQueen => 4,
            Piece::WhiteKing => 5,
            Piece::BlackPawn => 6,
            Piece::BlackKnight => 7,
            Piece::BlackBishop => 8,
            Piece::BlackRook => 9,
            Piece::BlackQueen => 10,
            Piece::BlackKing => 11,
        }
    }

    /// The piece at position `index` of the order of `Piece`.
    pub fn from_index(index: usize) -> (piece: Piece)
        requires
            index < 12,
        ensures
            piece == piece_from_index(index as int),
            piece_index(piece) == index,
    {
        if index == 0 {
            Piece::WhitePawn
        } else if index == 1 {
            Piece::WhiteKnight
        } else if index == 2 {
            Piece::WhiteBishop
        } else if index == 3 {
            Piece::WhiteRook
        } else if index == 4 {
            Piece::WhiteQueen
        } else if index == 5 {
            Piece::WhiteKing
        } else if index == 6 {
            Piece::BlackPawn
        } else if index == 7 {
            Piece::BlackKnight
        } else if index == 8 {
            Piece::BlackBishop
        } else if index == 9 {
            Piece::BlackRook
        } else if index == 10 {
            Piece::BlackQueen
        } else {
            Piece::BlackKing
        }
    }

    /// Whether the piece is white.
    pub fn is_white(self) -> (white: bool)
        ensures
            white == piece_is_white(self),
    {
        self.index() < 6
    }
}

} // verus!

//! Moves: a start square, a target square and a flag for the special kinds.

use vstd::prelude::*;
use crate::square::Square;
use crate::piece::{Piece, piece_of};

verus! {

/// What kind of move it is, beyond going from one square to another.
#[derive(Clone, Copy, PartialEq, Eq, Structural, Debug, Hash)]
pub enum Flag {
    Normal,
    EnPassant,
    PawnTwoUp,
    Castle,
    QueenPromotion,
    RookPromotion,
    BishopPromotion,
    KnightPromotion,
}

/// Number of the flag, from 0 to 7, in the order of `Flag`.
pub open spec fn flag_index(flag: Flag) -> int {
    match flag {
        Flag::Normal => 0,
        Flag::EnPassant => 1,
        Flag::PawnTwoUp => 2,
        Flag::Castle => 3,
        Flag::QueenPromotion => 4,
        Flag::RookPromotion => 5,
        Flag::BishopPromotion => 6,
        Flag::KnightPromotion => 7,
    }
}

/// The flag with the given number (numbers from 0 to 7).
pub open spec fn flag_from_index(index: int) -> Flag {
    if index == 0 {
        Flag::Normal
    } else if index == 1 {
        Flag::EnPassant
    } else if index == 2 {
        Flag::PawnTwoUp
    } else if index == 3 {
        Flag::Castle
    } else if index == 4 {
        Flag::QueenPromotion
    } else if index == 5 {
        Flag::RookPromotion
    } else if index == 6 {
        Flag::BishopPromotion
    } else {
        Flag::KnightPromotion
    }
}

/// The piece a pawn of the given side becomes with a promotion flag.
pub open spec fn promotion_piece(flag: Flag, white: bool) -> Option<Piece> {
    match flag {
        Flag::QueenPromotion => Some(piece_of(4, white)),
        Flag::RookPromotion => Some(piece_of(3, white)),
        Flag::BishopPromotion => Some(piece_of(2, white)),
        Flag::KnightPromotion => Some(piece_of(1, white)),
        _ => None,
    }
}

impl Flag {
    /// Number of the flag, from 0 to 7.
    pub fn index(self) -> (index: u16)
        ensures
            index == flag_index(self),
            index < 8,
    {
        match self {
            Flag::Normal => 0,
            Flag::EnPassant => 1,
            Flag::PawnTwoUp => 2,
            Flag::Castle => 3,
            Flag::QueenPromotion => 4,
            Flag::RookPromotion => 5,
            Flag::BishopPromotion => 6,
            Flag::KnightPromotion => 7,
        }
    }

    /// The flag with the given number.
    pub fn from_index(index: u16) -> (flag: Flag)
        requires
            index < 8,
        ensures
            flag == flag_from_index(index as int),
            flag_index(flag) == index,
    {
        if index == 0 {
            Flag::Normal
        } else if index == 1 {
            Flag::EnPassant
        } else if index == 2 {
            Flag::PawnTwoUp
        } else if index == 3 {
            Flag::Castle
        } else if index == 4 {
            Flag::QueenPromotion
        } else if index == 5 {
            Flag::RookPromotion
        } else if index == 6 {
            Flag::BishopPromotion
        } else {
            Flag::KnightPromotion
        }
    }

    /// Whether the flag promotes a pawn.
    pub fn is_promotion(self) -> (promotion: bool)
        ensures
            promotion == (promotion_piece(self, true) is Some),
            promotion == (promotion_piece(self, false) is Some),
    {
        matches!(
            self,
            Flag::QueenPromotion | Flag::RookPromotion | Flag::BishopPromotion
                | Flag::KnightPromotion
        )
    }

    /// The piece a pawn of the given side becomes, for a promotion flag.
    pub fn get_promotion_piece(self, white: bool) -> (piece: Option<Piece>)
        ensures
            piece == promotion_piece(self, white),
    {
        match self {
            Flag::QueenPromotion => Some(
                if white {
                    Piece::WhiteQueen
                } else {
                    Piece::BlackQueen
                },
            ),
            Flag::RookPromotion => Some(
                if white {
                    Piece::WhiteRook
                } else {
                    Piece::BlackRook
                },
            ),
            Flag::BishopPromotion => Some(
                if white {
                    Piece::WhiteBishop
                } else {
                    Piece::BlackBishop
                },
            ),
            Flag::KnightPromotion => Some(
                if white {
                    Piece::WhiteKnight
                } else {
                    Piece::BlackKnight
                },
            ),
            _ => None,
        }
    }
}

/// A move of a piece from one square to another.
#[derive(Clone, Copy, PartialEq, Eq, Structural, Debug, Hash)]
pub struct Move {
    pub from: Square,
    pub to: Square,
    pub flag: Flag,
}

impl Move {
    /// Both squares are on the board.
    pub open spec fn is_valid(self) -> bool {
        self.from.is_valid() && self.to.is_valid()
    }
}

} // verus!

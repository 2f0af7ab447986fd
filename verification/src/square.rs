//! Squares of the chess board, numbered 0 (a1) to 63 (h8), rank by rank.

use vstd::prelude::*;
use vstd::string::StringSliceAdditionalSpecFns;

verus! {

/// A square of the board. Valid squares hold an index below 64.
#[derive(Clone, Copy, PartialEq, Eq, Structural, Debug, Hash)]
pub struct Square(pub u8);

/// The eight sliding directions as index offsets: north, south, west, east,
/// north-west, south-east, north-east, south-west.
pub const DIRECTIONS: [i8; 8] = [8, -8, -1, 1, 7, -7, 9, -9];

/// Rank (0-based row) of a square index.
pub open spec fn rank_of(i: int) -> int {
    i / 8
}

/// File (0-based column) of a square index.
pub open spec fn file_of(i: int) -> int {
    i % 8
}

/// Index of the square mirrored across the horizontal middle line.
pub open spec fn flipped_index(i: int) -> int {
    (7 - i / 8) * 8 + i % 8
}

/// The square that two bytes of algebraic notation name, if any.
pub open spec fn spec_square_from_notation(bytes: Seq<u8>) -> Option<Square> {
    if bytes.len() == 2 && 97u8 <= bytes[0] <= 104u8 && 49u8 <= bytes[1] <= 56u8 {
        Some(Square(((bytes[1] - 49u8) * 8 + (bytes[0] - 97u8)) as u8))
    } else {
        None
    }
}

impl Square {
    /// Whether the square lies on the board.
    pub open spec fn is_valid(self) -> bool {
        self.0 < 64
    }

    /// Square with the given index.
    pub fn from_index(index: u8) -> (square: Square)
        requires
            index < 64,
        ensures
            square.0 == index,
            square.is_valid(),
    {
        Square(index)
    }

    /// Index of the square.
    pub fn index(self) -> (index: u8)
        ensures
            index == self.0,
    {
        self.0
    }

    /// Index of the square, for indexing tables.
    pub fn usize(self) -> (index: usize)
        ensures
            index == self.0,
    {
        self.0 as usize
    }

    /// Rank of the square, 0 for the first rank.
    pub fn rank(self) -> (rank: u8)
        ensures
            rank == rank_of(self.0 as int),
    {
        self.0 / 8
    }

    /// File of the square, 0 for the a-file.
    pub fn file(self) -> (file: u8)
        ensures
            file == file_of(self.0 as int),
    {
        self.0 % 8
    }

    /// The square seen from the other side of the board (rank mirrored).
    pub fn flip(self) -> (flipped: Square)
        requires
            self.is_valid(),
        ensures
            flipped.is_valid(),
            flipped.0 == flipped_index(self.0 as int),
    {
        let x = self.0;
        assert(x ^ 56u8 == (7 - x / 8) * 8 + x % 8 && x ^ 56u8 < 64) by (bit_vector)
            requires
                x < 64u8,
        ;
        Square(x ^ 56)
    }

    /// The square `offset` indices away.
    pub fn offset(self, offset: i8) -> (moved: Square)
        requires
            0 <= self.0 + offset < 64,
        ensures
            moved.0 == self.0 + offset,
            moved.is_valid(),
    {
        Square((self.0 as i16 + offset as i16) as u8)
    }

    /// The square `ranks` ranks further up the board (negative goes down).
    pub fn up(self, ranks: i8) -> (moved: Square)
        requires
            -8 <= ranks <= 8,
            0 <= self.0 + 8 * ranks < 64,
        ensures
            moved.0 == self.0 + 8 * ranks,
            moved.is_valid(),
    {
        self.offset(ranks * 8)
    }

    /// The square `ranks` ranks further down the board (negative goes up).
    pub fn down(self, ranks: i8) -> (moved: Square)
        requires
            -8 <= ranks <= 8,
            0 <= self.0 - 8 * ranks < 64,
        ensures
            moved.0 == self.0 - 8 * ranks,
            moved.is_valid(),
    {
        self.offset(-(ranks * 8))
    }

    /// Parses algebraic notation such as `e4`: a file letter `a`-`h`
    /// followed by a rank digit `1`-`8`.
    pub fn from_notation(notation: &str) -> (square: Option<Square>)
        ensures
            square == spec_square_from_notation(notation.spec_bytes()),
    {
        let bytes = notation.as_bytes();
        if bytes.len() != 2 {
            return None;
        }
        let file = bytes[0];
        let rank = bytes[1];
        if 97u8 <= file && file <= 104u8 && 49u8 <= rank && rank <= 56u8 {
            Some(Square((rank - 49u8) * 8 + (file - 97u8)))
        } else {
            None
        }
    }

    /// File letter and rank digit of the square in algebraic notation.
    pub fn notation_bytes(self) -> (bytes: (u8, u8))
        requires
            self.is_valid(),
        ensures
            bytes.0 == 97u8 + file_of(self.0 as int),
            bytes.1 == 49u8 + rank_of(self.0 as int),
            spec_square_from_notation(seq![bytes.0, bytes.1]) == Some(self),
    {
        (97u8 + self.0 % 8, 49u8 + self.0 / 8)
    }
}

} // verus!

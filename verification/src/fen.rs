//! Reading positions in Forsyth-Edwards Notation.

use vstd::prelude::*;
use vstd::string::StringSliceAdditionalSpecFns;
use crate::square::{Square, spec_square_from_notation, rank_of, file_of};
use crate::piece::Piece;
use crate::bit_board::{BitBoard, lemma_zero_bits};
use crate::board::{Board, BoardView, CastlingRights, GameState, lemma_first_piece_none};

verus! {

/// Byte codes used by the notation.
pub const SPACE: u8 = 32;
pub const SLASH: u8 = 47;
pub const DASH: u8 = 45;

/// The pieces of bytes between separators (an empty input gives one empty piece).
pub open spec fn split(bytes: Seq<u8>, separator: u8) -> Seq<Seq<u8>>
    decreases bytes.len(),
{
    if bytes.len() == 0 {
        seq![Seq::empty()]
    } else {
        let previous = split(bytes.drop_last(), separator);
        if bytes.last() == separator {
            previous.push(Seq::empty())
        } else {
            previous.update(previous.len() - 1, previous.last().push(bytes.last()))
        }
    }
}

/// Splitting always gives at least one piece.
proof fn lemma_split_len(bytes: Seq<u8>, separator: u8)
    ensures
        split(bytes, separator).len() >= 1,
    decreases bytes.len(),
{
    if bytes.len() > 0 {
        lemma_split_len(bytes.drop_last(), separator);
    }
}

/// The piece a letter names: `PNBRQK` for White, `pnbrqk` for Black.
pub open spec fn piece_from_letter(letter: u8) -> Option<Piece> {
    if letter == 80 {
        Some(Piece::WhitePawn)
    } else if letter == 78 {
        Some(Piece::WhiteKnight)
    } else if letter == 66 {
        Some(Piece::WhiteBishop)
    } else if letter == 82 {
        Some(Piece::WhiteRook)
    } else if letter == 81 {
        Some(Piece::WhiteQueen)
    } else if letter == 75 {
        Some(Piece::WhiteKing)
    } else if letter == 112 {
        Some(Piece::BlackPawn)
    } else if letter == 110 {
        Some(Piece::BlackKnight)
    } else if letter == 98 {
        Some(Piece::BlackBishop)
    } else if letter == 114 {
        Some(Piece::BlackRook)
    } else if letter == 113 {
        Some(Piece::BlackQueen)
    } else if letter == 107 {
        Some(Piece::BlackKing)
    } else {
        None
    }
}

/// The squares one byte of a rank stands for: a digit `1`-`8` for that many
/// empty squares, a letter for a piece.
pub open spec fn cells(byte: u8) -> Option<Seq<Option<Piece>>> {
    if 49 <= byte <= 56 {
        Some(Seq::new((byte - 48) as nat, |i: int| None::<Piece>))
    } else {
        match piece_from_letter(byte) {
            Some(piece) => Some(seq![Some(piece)]),
            None => None,
        }
    }
}

/// The squares a rank of the notation stands for, from the a-file on.
pub open spec fn expand_rank(bytes: Seq<u8>) -> Option<Seq<Option<Piece>>>
    decreases bytes.len(),
{
    if bytes.len() == 0 {
        Some(Seq::empty())
    } else {
        match (expand_rank(bytes.drop_last()), cells(bytes.last())) {
            (Some(front), Some(back)) => Some(front + back),
            _ => None,
        }
    }
}

/// Whether the bytes stand for exactly eight squares.
pub open spec fn full_rank(bytes: Seq<u8>) -> bool {
    expand_rank(bytes) is Some && expand_rank(bytes)->0.len() == 8
}

/// The 64 squares the piece placement field stands for: eight ranks of eight
/// squares separated by `/`, the eighth rank first.
pub open spec fn placement(field: Seq<u8>) -> Option<Seq<Option<Piece>>> {
    let ranks = split(field, SLASH);
    if ranks.len() == 8 && forall|r: int| 0 <= r < 8 ==> #[trigger] full_rank(ranks[r]) {
        Some(Seq::new(64, |i: int| expand_rank(ranks[7 - rank_of(i)])->0[file_of(i)]))
    } else {
        None
    }
}

/// The value of a non-empty string of decimal digits.
pub open spec fn decimal(bytes: Seq<u8>) -> Option<nat>
    decreases bytes.len(),
{
    if bytes.len() == 0 {
        None
    } else if !(48 <= bytes.last() <= 57) {
        None
    } else if bytes.len() == 1 {
        Some((bytes.last() - 48) as nat)
    } else {
        match decimal(bytes.drop_last()) {
            Some(value) => Some(value * 10 + (bytes.last() - 48) as nat),
            None => None,
        }
    }
}

/// Castling rights after reading the letters `KQkq` (any other byte fails).
pub open spec fn castling_letters(bytes: Seq<u8>) -> Option<CastlingRights>
    decreases bytes.len(),
{
    if bytes.len() == 0 {
        Some(CastlingRights {
            white_king_side: false,
            white_queen_side: false,
            black_king_side: false,
            black_queen_side: false,
        })
    } else {
        match castling_letters(bytes.drop_last()) {
            Some(rights) => {
                let letter = bytes.last();
                if letter == 75 {
                    Some(CastlingRights { white_king_side: true, ..rights })
                } else if letter == 81 {
                    Some(CastlingRights { white_queen_side: true, ..rights })
                } else if letter == 107 {
                    Some(CastlingRights { black_king_side: true, ..rights })
                } else if letter == 113 {
                    Some(CastlingRights { black_queen_side: true, ..rights })
                } else {
                    None
                }
            },
            None => None,
        }
    }
}

/// The castling field: `-` for none, or letters among `KQkq`.
pub open spec fn castling_field(field: Seq<u8>) -> Option<CastlingRights> {
    if field == seq![DASH] {
        Some(
            CastlingRights {
                white_king_side: false,
                white_queen_side: false,
                black_king_side: false,
                black_queen_side: false,
            },
        )
    } else if field.len() == 0 {
        None
    } else {
        castling_letters(field)
    }
}

/// The model of the board a position in Forsyth-Edwards Notation describes:
/// six fields separated by single spaces (placement, side to move `w` or
/// `b`, castling rights, en passant square or `-`, half move clock, full move
/// number), or nothing when the text is not such a position.
pub open spec fn fen_board(bytes: Seq<u8>) -> Option<BoardView> {
    let fields = split(bytes, SPACE);
    if fields.len() != 6 {
        None
    } else {
        match (
            placement(fields[0]),
            castling_field(fields[2]),
            decimal(fields[4]),
            decimal(fields[5]),
        ) {
            (Some(squares), Some(castling_rights), Some(clock), Some(_)) => {
                let side = fields[1];
                let en_passant = fields[3];
                if (side == seq![119u8] || side == seq![98u8]) && clock <= u32::MAX && (en_passant
                    == seq![DASH] || spec_square_from_notation(en_passant) is Some) {
                    Some(
                        BoardView {
                            squares,
                            white_to_move: side == seq![119u8],
                            state: GameState {
                                castling_rights,
                                en_passant_square: if en_passant == seq![DASH] {
                                    None
                                } else {
                                    spec_square_from_notation(en_passant)
                                },
                                half_move_clock: clock as u32,
                                captured: None,
                            },
                        },
                    )
                } else {
                    None
                }
            },
            _ => None,
        }
    }
}

/// The contents of each vector of bytes.
pub open spec fn views(pieces: Seq<Vec<u8>>) -> Seq<Seq<u8>> {
    Seq::new(pieces.len(), |i: int| pieces[i]@)
}

/// Splits bytes at each separator.
pub fn split_bytes(bytes: &[u8], separator: u8) -> (pieces: Vec<Vec<u8>>)
    ensures
        views(pieces@) == split(bytes@, separator),
{
    let mut pieces: Vec<Vec<u8>> = Vec::new();
    let mut current: Vec<u8> = Vec::new();
    let mut i: usize = 0;
    proof {
        assert(bytes@.take(0) =~= Seq::<u8>::empty());
        assert(views(pieces@).push(current@) =~= split(bytes@.take(0), separator));
    }
    while i < bytes.len()
        invariant
            i <= bytes@.len(),
            views(pieces@).push(current@) == split(bytes@.take(i as int), separator),
        decreases bytes@.len() - i,
    {
        let byte = bytes[i];
        let ghost before = views(pieces@).push(current@);
        proof {
            assert(bytes@.take(i + 1).drop_last() =~= bytes@.take(i as int));
            assert(bytes@.take(i + 1).last() == byte);
        }
        if byte == separator {
            pieces.push(current);
            current = Vec::new();
            proof {
                assert(views(pieces@).push(current@) =~= before.push(Seq::empty()));
            }
        } else {
            current.push(byte);
            proof {
                assert(views(pieces@).push(current@) =~= before.update(
                    before.len() - 1,
                    before.last().push(byte),
                ));
            }
        }
        i = i + 1;
    }
    proof {
        assert(bytes@.take(bytes@.len() as int) =~= bytes@);
    }
    pieces.push(current);
    proof {
        assert(views(pieces@) =~= split(bytes@, separator));
    }
    pieces
}

/// The piece a letter names.
pub fn piece_from_letter_byte(letter: u8) -> (piece: Option<Piece>)
    ensures
        piece == piece_from_letter(letter),
{
    if letter == 80 {
        Some(Piece::WhitePawn)
    } else if letter == 78 {
        Some(Piece::WhiteKnight)
    } else if letter == 66 {
        Some(Piece::WhiteBishop)
    } else if letter == 82 {
        Some(Piece::WhiteRook)
    } else if letter == 81 {
        Some(Piece::WhiteQueen)
    } else if letter == 75 {
        Some(Piece::WhiteKing)
    } else if letter == 112 {
        Some(Piece::BlackPawn)
    } else if letter == 110 {
        Some(Piece::BlackKnight)
    } else if letter == 98 {
        Some(Piece::BlackBishop)
    } else if letter == 114 {
        Some(Piece::BlackRook)
    } else if letter == 113 {
        Some(Piece::BlackQueen)
    } else if letter == 107 {
        Some(Piece::BlackKing)
    } else {
        None
    }
}

/// The squares of a rank of the notation, if it is one of exactly eight squares.
fn read_rank(bytes: &Vec<u8>) -> (squares: Option<Vec<Option<Piece>>>)
    ensures
        squares is Some <==> full_rank(bytes@),
        squares matches Some(s) ==> s@ == expand_rank(bytes@)->0,
{
    let mut squares: Vec<Option<Piece>> = Vec::new();
    let mut i: usize = 0;
    proof {
        assert(bytes@.take(0) =~= Seq::<u8>::empty());
    }
    while i < bytes.len()
        invariant
            i <= bytes@.len(),
            expand_rank(bytes@.take(i as int)) == Some(squares@),
            squares@.len() <= 8,
        decreases bytes@.len() - i,
    {
        let byte = bytes[i];
        proof {
            assert(bytes@.take(i + 1).drop_last() =~= bytes@.take(i as int));
            assert(bytes@.take(i + 1).last() == byte);
        }
        if 49 <= byte && byte <= 56 {
            let count = (byte - 48) as usize;
            if squares.len() + count > 8 {
                proof {
                    lemma_expand_rank_grows(bytes@, i as int + 1);
                }
                return None;
            }
            let ghost front = squares@;
            let mut k: usize = 0;
            while k < count
                invariant
                    k <= count,
                    count <= 8,
                    squares@ == front + Seq::new(k as nat, |j: int| None::<Piece>),
                decreases count - k,
            {
                squares.push(None);
                k = k + 1;
                proof {
                    assert(squares@ =~= front + Seq::new(k as nat, |j: int| None::<Piece>));
                }
            }
        } else {
            match piece_from_letter_byte(byte) {
                Some(piece) => {
                    if squares.len() + 1 > 8 {
                        proof {
                            lemma_expand_rank_grows(bytes@, i as int + 1);
                        }
                        return None;
                    }
                    squares.push(Some(piece));
                },
                None => {
                    proof {
                        lemma_expand_rank_fails(bytes@, i as int + 1);
                    }
                    return None;
                },
            }
        }
        i = i + 1;
    }
    proof {
        assert(bytes@.take(bytes@.len() as int) =~= bytes@);
    }
    if squares.len() == 8 {
        Some(squares)
    } else {
        None
    }
}

/// Once a prefix of a rank fails to read, the whole rank fails.
proof fn lemma_expand_rank_fails(bytes: Seq<u8>, n: int)
    requires
        0 <= n <= bytes.len(),
        expand_rank(bytes.take(n)) is None,
    ensures
        expand_rank(bytes) is None,
    decreases bytes.len() - n,
{
    if n < bytes.len() {
        assert(bytes.take(n + 1).drop_last() =~= bytes.take(n));
        lemma_expand_rank_fails(bytes, n + 1);
    } else {
        assert(bytes.take(n) =~= bytes);
    }
}

/// Reading more of a rank never gives fewer squares; so once a prefix is
/// longer than eight squares the rank is not a full one.
proof fn lemma_expand_rank_grows(bytes: Seq<u8>, n: int)
    requires
        0 <= n <= bytes.len(),
        expand_rank(bytes.take(n)) is Some ==> expand_rank(bytes.take(n))->0.len() > 8,
    ensures
        !full_rank(bytes),
    decreases bytes.len() - n,
{
    if n < bytes.len() {
        assert(bytes.take(n + 1).drop_last() =~= bytes.take(n));
        lemma_expand_rank_grows(bytes, n + 1);
    } else {
        assert(bytes.take(n) =~= bytes);
    }
}

/// A decimal string has a value exactly when it is a non-empty string of digits.
proof fn lemma_decimal_digits(bytes: Seq<u8>)
    ensures
        decimal(bytes) is Some <==> (bytes.len() > 0 && forall|i: int| 0 <= i < bytes.len() ==> 48 <= #[trigger] bytes[i] <= 57),
    decreases bytes.len(),
{
    if bytes.len() > 1 {
        lemma_decimal_digits(bytes.drop_last());
        if decimal(bytes) is Some {
            assert forall|i: int| 0 <= i < bytes.len() implies 48 <= #[trigger] bytes[i] <= 57 by {
                if i < bytes.len() - 1 {
                    assert(bytes.drop_last()[i] == bytes[i]);
                }
            }
        }
        if bytes.len() > 0 && forall|i: int| 0 <= i < bytes.len() ==> 48 <= #[trigger] bytes[i] <= 57 {
            assert(forall|i: int| 0 <= i < bytes.drop_last().len() ==> 48 <= #[trigger] bytes.drop_last()[i] <= 57);
        }
    }
}

/// Reading more digits never lowers the value.
proof fn lemma_decimal_grows(bytes: Seq<u8>, n: int, bound: nat)
    requires
        1 <= n <= bytes.len(),
        decimal(bytes.take(n)) is Some ==> decimal(bytes.take(n))->0 > bound,
    ensures
        decimal(bytes) is Some ==> decimal(bytes)->0 > bound,
    decreases bytes.len() - n,
{
    if n < bytes.len() {
        assert(bytes.take(n + 1).drop_last() =~= bytes.take(n));
        lemma_decimal_grows(bytes, n + 1, bound);
    } else {
        assert(bytes.take(n) =~= bytes);
    }
}

/// Once a prefix has no value, the whole string has none.
proof fn lemma_decimal_fails(bytes: Seq<u8>, n: int)
    requires
        1 <= n <= bytes.len(),
        decimal(bytes.take(n)) is None,
    ensures
        decimal(bytes) is None,
    decreases bytes.len() - n,
{
    if n < bytes.len() {
        assert(bytes.take(n + 1).drop_last() =~= bytes.take(n));
        lemma_decimal_fails(bytes, n + 1);
    } else {
        assert(bytes.take(n) =~= bytes);
    }
}

/// The value of a string of digits, if it has one that fits in 32 bits.
fn read_clock(bytes: &Vec<u8>) -> (value: Option<u32>)
    ensures
        value == (if decimal(bytes@) is Some && decimal(bytes@)->0 <= u32::MAX {
            Some(decimal(bytes@)->0 as u32)
        } else {
            None
        }),
{
    if bytes.len() == 0 {
        return None;
    }
    let mut value: u64 = 0;
    let mut i: usize = 0;
    while i < bytes.len()
        invariant
            i <= bytes@.len(),
            bytes@.len() > 0,
            i == 0 ==> value == 0,
            i > 0 ==> decimal(bytes@.take(i as int)) == Some(value as nat),
            value <= u32::MAX,
        decreases bytes@.len() - i,
    {
        let byte = bytes[i];
        proof {
            assert(bytes@.take(i + 1).drop_last() =~= bytes@.take(i as int));
            assert(bytes@.take(i + 1).last() == byte);
        }
        if !(48 <= byte && byte <= 57) {
            proof {
                lemma_decimal_fails(bytes@, i + 1);
            }
            return None;
        }
        value = value * 10 + (byte - 48) as u64;
        if value > 0xffff_ffff {
            proof {
                lemma_decimal_grows(bytes@, i + 1, 0xffff_ffff);
            }
            return None;
        }
        i = i + 1;
    }
    proof {
        assert(bytes@.take(bytes@.len() as int) =~= bytes@);
    }
    Some(value as u32)
}

/// The value of a string of digits, if it has one that fits in 64 bits.
pub fn read_number(bytes: &[u8]) -> (value: Option<u64>)
    ensures
        value == (if decimal(bytes@) is Some && decimal(bytes@)->0 <= u64::MAX {
            Some(decimal(bytes@)->0 as u64)
        } else {
            None
        }),
{
    if bytes.len() == 0 {
        return None;
    }
    let mut value: u64 = 0;
    let mut i: usize = 0;
    while i < bytes.len()
        invariant
            i <= bytes@.len(),
            bytes@.len() > 0,
            i == 0 ==> value == 0,
            i > 0 ==> decimal(bytes@.take(i as int)) == Some(value as nat),
        decreases bytes@.len() - i,
    {
        let byte = bytes[i];
        proof {
            assert(bytes@.take(i + 1).drop_last() =~= bytes@.take(i as int));
            assert(bytes@.take(i + 1).last() == byte);
        }
        if !(48 <= byte && byte <= 57) {
            proof {
                lemma_decimal_fails(bytes@, i + 1);
            }
            return None;
        }
        let digit = (byte - 48) as u64;
        if value > (0xffff_ffff_ffff_ffff - digit) / 10 {
            proof {
                assert(value * 10 + digit > u64::MAX) by (nonlinear_arith)
                    requires
                        value > (u64::MAX - digit) / 10,
                        digit <= 9,
                ;
                lemma_decimal_grows(bytes@, i + 1, 0xffff_ffff_ffff_ffff);
            }
            return None;
        }
        proof {
            assert(value * 10 + digit <= u64::MAX) by (nonlinear_arith)
                requires
                    value <= (u64::MAX - digit) / 10,
                    digit <= 9,
            ;
        }
        value = value * 10 + digit;
        i = i + 1;
    }
    proof {
        assert(bytes@.take(bytes@.len() as int) =~= bytes@);
    }
    Some(value)
}

/// Whether the bytes are a non-empty string of digits.
fn is_decimal(bytes: &Vec<u8>) -> (digits: bool)
    ensures
        digits == decimal(bytes@) is Some,
{
    proof {
        lemma_decimal_digits(bytes@);
    }
    if bytes.len() == 0 {
        return false;
    }
    let mut i: usize = 0;
    while i < bytes.len()
        invariant
            i <= bytes@.len(),
            forall|j: int| 0 <= j < i ==> 48 <= #[trigger] bytes@[j] <= 57,
        decreases bytes@.len() - i,
    {
        if !(48 <= bytes[i] && bytes[i] <= 57) {
            proof {
                lemma_decimal_digits(bytes@);
                assert(!(48 <= bytes@[i as int] <= 57));
            }
            return false;
        }
        i = i + 1;
    }
    true
}

/// Reads the castling field.
fn read_castling(bytes: &Vec<u8>) -> (rights: Option<CastlingRights>)
    ensures
        rights == castling_field(bytes@),
{
    if bytes.len() == 1 && bytes[0] == DASH {
        assert(bytes@ =~= seq![DASH]);
        return Some(CastlingRights::none());
    }
    if bytes.len() == 0 {
        return None;
    }
    proof {
        assert(bytes@ != seq![DASH]);
    }
    let mut rights = CastlingRights::none();
    let mut i: usize = 0;
    proof {
        assert(bytes@.take(0) =~= Seq::<u8>::empty());
    }
    while i < bytes.len()
        invariant
            i <= bytes@.len(),
            castling_letters(bytes@.take(i as int)) == Some(rights),
            bytes@.len() > 0,
            bytes@ != seq![DASH],
        decreases bytes@.len() - i,
    {
        let letter = bytes[i];
        proof {
            assert(bytes@.take(i + 1).drop_last() =~= bytes@.take(i as int));
            assert(bytes@.take(i + 1).last() == letter);
        }
        if letter == 75 {
            rights.white_king_side = true;
        } else if letter == 81 {
            rights.white_queen_side = true;
        } else if letter == 107 {
            rights.black_king_side = true;
        } else if letter == 113 {
            rights.black_queen_side = true;
        } else {
            proof {
                lemma_castling_fails(bytes@, i + 1);
            }
            return None;
        }
        i = i + 1;
    }
    proof {
        assert(bytes@.take(bytes@.len() as int) =~= bytes@);
    }
    Some(rights)
}

/// Once a prefix of the castling letters fails, the whole field fails.
proof fn lemma_castling_fails(bytes: Seq<u8>, n: int)
    requires
        0 <= n <= bytes.len(),
        castling_letters(bytes.take(n)) is None,
    ensures
        castling_letters(bytes) is None,
    decreases bytes.len() - n,
{
    if n < bytes.len() {
        assert(bytes.take(n + 1).drop_last() =~= bytes.take(n));
        lemma_castling_fails(bytes, n + 1);
    } else {
        assert(bytes.take(n) =~= bytes);
    }
}

/// The square two bytes of notation name.
fn read_square(bytes: &Vec<u8>) -> (square: Option<Square>)
    ensures
        square == spec_square_from_notation(bytes@),
{
    if bytes.len() != 2 {
        return None;
    }
    let file = bytes[0];
    let rank = bytes[1];
    if 97 <= file && file <= 104 && 49 <= rank && rank <= 56 {
        Some(Square((rank - 49) * 8 + (file - 97)))
    } else {
        None
    }
}

/// Reads the piece placement field into the 64 squares.
fn read_placement(field: &Vec<u8>) -> (squares: Option<Vec<Option<Piece>>>)
    ensures
        squares is Some <==> placement(field@) is Some,
        squares matches Some(s) ==> s@ == placement(field@)->0,
{
    let ranks = split_bytes(field.as_slice(), SLASH);
    if ranks.len() != 8 {
        return None;
    }
    let mut rows: Vec<Vec<Option<Piece>>> = Vec::new();
    let mut r: usize = 0;
    while r < 8
        invariant
            r <= 8,
            views(ranks@) == split(field@, SLASH),
            ranks@.len() == 8,
            rows@.len() == r,
            forall|j: int| 0 <= j < r ==> #[trigger] full_rank(ranks@[j]@) && rows@[j]@ == expand_rank(ranks@[j]@)->0,
        decreases 8 - r,
    {
        match read_rank(&ranks[r]) {
            Some(row) => rows.push(row),
            None => {
                assert(!full_rank(split(field@, SLASH)[r as int]));
                return None;
            },
        }
        r = r + 1;
    }
    let mut squares: Vec<Option<Piece>> = Vec::new();
    let mut i: usize = 0;
    while i < 64
        invariant
            i <= 64,
            views(ranks@) == split(field@, SLASH),
            ranks@.len() == 8,
            rows@.len() == 8,
            forall|j: int| 0 <= j < 8 ==> #[trigger] full_rank(ranks@[j]@) && rows@[j]@ == expand_rank(ranks@[j]@)->0,
            squares@.len() == i,
            forall|j: int| 0 <= j < i ==> #[trigger] squares@[j] == expand_rank(ranks@[7 - rank_of(j)]@)->0[file_of(j)],
        decreases 64 - i,
    {
        let row = 7 - i / 8;
        assert(full_rank(ranks@[row as int]@));
        squares.push(rows[row][i % 8]);
        i = i + 1;
    }
    proof {
        assert(forall|j: int| 0 <= j < 8 ==> #[trigger] full_rank(split(field@, SLASH)[j]));
        assert(squares@ =~= placement(field@)->0);
    }
    Some(squares)
}

/// A board with no piece on it and the given side to move and state.
fn empty_board(white_to_move: bool, game_state: GameState) -> (board: Board)
    requires
        game_state.wf(),
    ensures
        board.wf(),
        board@.squares == Seq::new(64, |i: int| None::<Piece>),
        board.white_to_move == white_to_move,
        board.game_state == game_state,
{
    let board = Board {
        bit_boards: [
            BitBoard(0),
            BitBoard(0),
            BitBoard(0),
            BitBoard(0),
            BitBoard(0),
            BitBoard(0),
            BitBoard(0),
            BitBoard(0),
            BitBoard(0),
            BitBoard(0),
            BitBoard(0),
            BitBoard(0),
        ],
        white_to_move,
        game_state,
    };
    proof {
        assert forall|p: int, i: int| 0 <= p < 12 && 0 <= i < 64 implies !#[trigger] board.has_piece(p, i) by {
            lemma_zero_bits(i as u64);
        }
        assert forall|i: int| 0 <= i < 64 implies #[trigger] board@.squares[i] == None::<Piece> by {
            assert forall|q: int| 0 <= q < 12 implies !#[trigger] board.bit_boards@[q].has(i) by {
                assert(!board.has_piece(q, i));
            }
            lemma_first_piece_none(board.bit_boards@, i, 0, 12);
        }
        assert(board@.squares =~= Seq::new(64, |i: int| None::<Piece>));
    }
    board
}

/// A board with no piece on it, White to move and no castling rights.
pub fn empty_position() -> (board: Board)
    ensures
        board.wf(),
        board@.squares == Seq::new(64, |i: int| None::<Piece>),
{
    empty_board(
        true,
        GameState {
            castling_rights: CastlingRights::none(),
            en_passant_square: None,
            half_move_clock: 0,
            captured: None,
        },
    )
}

impl Board {
    /// The starting position of a game of chess.
    pub const START_POSITION_FEN: &'static str = "rnbqkbnr/pppppppp/8/8/8/8/PPPPPPPP/RNBQKBNR w KQkq - 0 1";

    /// Reads a position in Forsyth-Edwards Notation; `None` when the text is
    /// not one (see `fen_board`).
    pub fn from_fen(fen: &str) -> (board: Option<Board>)
        ensures
            board is Some <==> fen_board(fen.spec_bytes()) is Some,
            board matches Some(b) ==> b.wf() && b@ == fen_board(fen.spec_bytes())->0,
    {
        Board::from_fen_bytes(fen.as_bytes())
    }

    /// Reads a position in Forsyth-Edwards Notation given as bytes.
    pub fn from_fen_bytes(bytes: &[u8]) -> (board: Option<Board>)
        ensures
            board is Some <==> fen_board(bytes@) is Some,
            board matches Some(b) ==> b.wf() && b@ == fen_board(bytes@)->0,
    {
        let fields = split_bytes(bytes, SPACE);
        if fields.len() != 6 {
            return None;
        }
        proof {
            assert(fields@[0]@ == split(bytes@, SPACE)[0]);
            assert(fields@[1]@ == split(bytes@, SPACE)[1]);
            assert(fields@[2]@ == split(bytes@, SPACE)[2]);
            assert(fields@[3]@ == split(bytes@, SPACE)[3]);
            assert(fields@[4]@ == split(bytes@, SPACE)[4]);
            assert(fields@[5]@ == split(bytes@, SPACE)[5]);
        }
        let squares = match read_placement(&fields[0]) {
            Some(squares) => squares,
            None => return None,
        };
        let castling_rights = match read_castling(&fields[2]) {
            Some(rights) => rights,
            None => return None,
        };
        let half_move_clock = match read_clock(&fields[4]) {
            Some(clock) => clock,
            None => {
                proof {
                    lemma_decimal_digits(fields@[4]@);
                }
                return None;
            },
        };
        if !is_decimal(&fields[5]) {
            return None;
        }
        let side = &fields[1];
        let white_to_move = if side.len() == 1 && side[0] == 119 {
            assert(side@ =~= seq![119u8]);
            true
        } else if side.len() == 1 && side[0] == 98 {
            assert(side@ =~= seq![98u8]);
            false
        } else {
            assert(side@ != seq![119u8] && side@ != seq![98u8]) by {
                if side@ == seq![119u8] || side@ == seq![98u8] {
                    assert(side@.len() == 1);
                }
            }
            return None;
        };
        let passant = &fields[3];
        let en_passant_square = if passant.len() == 1 && passant[0] == DASH {
            assert(passant@ =~= seq![DASH]);
            None
        } else {
            assert(passant@ != seq![DASH]) by {
                if passant@ == seq![DASH] {
                    assert(passant@.len() == 1);
                }
            }
            match read_square(passant) {
                Some(square) => Some(square),
                None => return None,
            }
        };
        let ghost target = fen_board(bytes@)->0;
        let mut board = empty_board(
            white_to_move,
            GameState { castling_rights, en_passant_square, half_move_clock, captured: None },
        );
        proof {
            assert(board@.squares =~= Seq::new(64, |j: int| if j < 0 { squares@[j] } else { None }));
        }
        let mut i: usize = 0;
        while i < 64
            invariant
                i <= 64,
                squares@.len() == 64,
                board.wf(),
                board.white_to_move == white_to_move,
                board.game_state == (GameState { castling_rights, en_passant_square, half_move_clock, captured: None }),
                board@.squares == Seq::new(64, |j: int| if j < i { squares@[j] } else { None }),
            decreases 64 - i,
        {
            let ghost before = board@.squares;
            match squares[i] {
                Some(piece) => {
                    board.add_piece(piece, Square(i as u8));
                },
                None => {},
            }
            i = i + 1;
            proof {
                assert(board@.squares =~= Seq::new(64, |j: int| if j < i { squares@[j] } else { None }));
            }
        }
        proof {
            assert(board@.squares =~= squares@);
            assert(board@ =~= target);
        }
        Some(board)
    }
}

} // verus!

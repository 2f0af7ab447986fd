//! Writing positions in Forsyth-Edwards Notation, and reading back what was written.

use vstd::prelude::*;
use crate::square::{Square, rank_of, file_of, spec_square_from_notation};
use crate::piece::Piece;
use crate::board::{Board, BoardView, CastlingRights, GameState};
use crate::fen::{SPACE, SLASH, DASH, split, cells, expand_rank, full_rank, placement, decimal, castling_letters,
    castling_field, fen_board, piece_from_letter};

verus! {

/// The letter of a piece: `PNBRQK` for White, `pnbrqk` for Black.
pub open spec fn piece_letter(piece: Piece) -> u8 {
    match piece {
        Piece::WhitePawn => 80,
        Piece::WhiteKnight => 78,
        Piece::WhiteBishop => 66,
        Piece::WhiteRook => 82,
        Piece::WhiteQueen => 81,
        Piece::WhiteKing => 75,
        Piece::BlackPawn => 112,
        Piece::BlackKnight => 110,
        Piece::BlackBishop => 98,
        Piece::BlackRook => 114,
        Piece::BlackQueen => 113,
        Piece::BlackKing => 107,
    }
}

/// The digit for a run of empty squares, or nothing for none.
pub open spec fn empties_text(count: int) -> Seq<u8> {
    if count > 0 {
        seq![(48 + count) as u8]
    } else {
        Seq::empty()
    }
}

/// Text of the cells `i..8` of a rank, after `empties` empty cells not yet written.
pub open spec fn rank_text_from(row: Seq<Option<Piece>>, i: int, empties: int) -> Seq<u8>
    decreases 8 - i,
{
    if i >= 8 {
        empties_text(empties)
    } else {
        match row[i] {
            None => rank_text_from(row, i + 1, empties + 1),
            Some(piece) => empties_text(empties) + seq![piece_letter(piece)] + rank_text_from(row, i + 1, 0),
        }
    }
}

/// The eight squares of a rank, from the a-file on.
pub open spec fn rank_row(squares: Seq<Option<Piece>>, rank: int) -> Seq<Option<Piece>> {
    squares.subrange(rank * 8, rank * 8 + 8)
}

/// Text of a rank.
pub open spec fn rank_text(squares: Seq<Option<Piece>>, rank: int) -> Seq<u8> {
    rank_text_from(rank_row(squares, rank), 0, 0)
}

/// Text of the first `n` ranks from the eighth down, separated by `/`.
pub open spec fn placement_text_upto(squares: Seq<Option<Piece>>, n: int) -> Seq<u8>
    decreases n,
{
    if n <= 1 {
        rank_text(squares, 7)
    } else {
        placement_text_upto(squares, n - 1) + seq![SLASH] + rank_text(squares, 8 - n)
    }
}

/// Text of the piece placement.
pub open spec fn placement_text(squares: Seq<Option<Piece>>) -> Seq<u8> {
    placement_text_upto(squares, 8)
}

/// Text of the castling rights: `-` for none, else the letters of those held among `KQkq`.
pub open spec fn castling_text(rights: CastlingRights) -> Seq<u8> {
    if !rights.white_king_side && !rights.white_queen_side && !rights.black_king_side && !rights.black_queen_side {
        seq![DASH]
    } else {
        (if rights.white_king_side {
            seq![75u8]
        } else {
            Seq::empty()
        }) + (if rights.white_queen_side {
            seq![81u8]
        } else {
            Seq::empty()
        }) + (if rights.black_king_side {
            seq![107u8]
        } else {
            Seq::empty()
        }) + (if rights.black_queen_side {
            seq![113u8]
        } else {
            Seq::empty()
        })
    }
}

/// Decimal digits of a number.
pub open spec fn decimal_text(n: nat) -> Seq<u8>
    decreases n,
{
    if n < 10 {
        seq![(48 + n) as u8]
    } else {
        decimal_text(n / 10).push((48 + n % 10) as u8)
    }
}

/// Text of the en passant square, or `-`.
pub open spec fn en_passant_text(square: Option<Square>) -> Seq<u8> {
    match square {
        None => seq![DASH],
        Some(square) => seq![(97 + file_of(square.0 as int)) as u8, (49 + rank_of(square.0 as int)) as u8],
    }
}

/// The notation of a position; the full move number, which a board does not
/// keep, is written as 1.
pub open spec fn fen_text(v: BoardView) -> Seq<u8> {
    placement_text(v.squares) + seq![SPACE] + (if v.white_to_move {
        seq![119u8]
    } else {
        seq![98u8]
    }) + seq![SPACE] + castling_text(v.state.castling_rights) + seq![SPACE] + en_passant_text(
        v.state.en_passant_square,
    ) + seq![SPACE] + decimal_text(v.state.half_move_clock as nat) + seq![SPACE] + seq![49u8]
}

/// Splitting at a separator splits each side of it.
proof fn lemma_split_concat(x: Seq<u8>, y: Seq<u8>, separator: u8)
    ensures
        split(x + seq![separator] + y, separator) == split(x, separator) + split(y, separator),
    decreases y.len(),
{
    if y.len() == 0 {
        assert((x + seq![separator] + y).drop_last() =~= x);
        assert(split(x, separator).push(Seq::empty()) =~= split(x, separator) + split(y, separator));
    } else {
        let shorter = y.drop_last();
        lemma_split_concat(x, shorter, separator);
        assert((x + seq![separator] + y).drop_last() =~= x + seq![separator] + shorter);
        lemma_split_len(shorter, separator);
        let left = split(x, separator);
        let right = split(shorter, separator);
        if y.last() == separator {
            assert((left + right).push(Seq::empty()) =~= left + right.push(Seq::empty()));
        } else {
            let both = left + right;
            assert(both.update(both.len() - 1, both.last().push(y.last())) =~= left + right.update(
                right.len() - 1,
                right.last().push(y.last()),
            ));
        }
    }
}

/// Splitting gives at least one piece.
proof fn lemma_split_len(bytes: Seq<u8>, separator: u8)
    ensures
        split(bytes, separator).len() >= 1,
    decreases bytes.len(),
{
    if bytes.len() > 0 {
        lemma_split_len(bytes.drop_last(), separator);
    }
}

/// Bytes without the separator are one piece.
proof fn lemma_split_whole(bytes: Seq<u8>, separator: u8)
    requires
        forall|k: int| 0 <= k < bytes.len() ==> bytes[k] != separator,
    ensures
        split(bytes, separator) == seq![bytes],
    decreases bytes.len(),
{
    if bytes.len() > 0 {
        lemma_split_whole(bytes.drop_last(), separator);
        assert(bytes.drop_last().push(bytes.last()) =~= bytes);
        assert(seq![bytes.drop_last()].update(0, bytes.drop_last().push(bytes.last())) =~= seq![bytes]);
    } else {
        assert(bytes =~= Seq::<u8>::empty());
    }
}

/// The squares of joined texts are the squares of each, joined.
proof fn lemma_expand_concat(a: Seq<u8>, b: Seq<u8>)
    ensures
        expand_rank(a + b) == (match (expand_rank(a), expand_rank(b)) {
            (Some(x), Some(y)) => Some(x + y),
            _ => None,
        }),
    decreases b.len(),
{
    if b.len() == 0 {
        assert(a + b =~= a);
        if let Some(x) = expand_rank(a) {
            assert(x + Seq::<Option<Piece>>::empty() =~= x);
        }
    } else {
        lemma_expand_concat(a, b.drop_last());
        assert((a + b).drop_last() =~= a + b.drop_last());
        assert((a + b).last() == b.last());
        if let (Some(x), Some(y)) = (expand_rank(a), expand_rank(b.drop_last())) {
            if let Some(c) = cells(b.last()) {
                assert(x + y + c =~= x + (y + c));
            }
        }
    }
}

/// No empty squares, or up to eight of them, as one digit.
proof fn lemma_empties(count: int)
    requires
        0 <= count <= 8,
    ensures
        expand_rank(empties_text(count)) == Some(Seq::new(count as nat, |j: int| None::<Piece>)),
        forall|k: int| 0 <= k < empties_text(count).len() ==> cells(#[trigger] empties_text(count)[k]) is Some,
{
    if count > 0 {
        let text = empties_text(count);
        let nones = Seq::new(count as nat, |j: int| None::<Piece>);
        assert(text.drop_last() =~= Seq::<u8>::empty());
        assert(expand_rank(text.drop_last()) == Some(Seq::<Option<Piece>>::empty()));
        assert(text.last() == 48 + count);
        assert(cells(text.last()) is Some);
        assert(cells(text.last())->0 =~= nones);
        assert(Seq::<Option<Piece>>::empty() + cells(text.last())->0 =~= nones);
    } else {
        assert(Seq::<Option<Piece>>::empty() =~= Seq::new(count as nat, |j: int| None::<Piece>));
    }
}

/// A piece's letter stands for the piece.
proof fn lemma_letter(piece: Piece)
    ensures
        cells(piece_letter(piece)) == Some(seq![Some(piece)]),
        expand_rank(seq![piece_letter(piece)]) == Some(seq![Some(piece)]),
{
    let text = seq![piece_letter(piece)];
    assert(text.drop_last() =~= Seq::<u8>::empty());
    assert(expand_rank(text.drop_last()) == Some(Seq::<Option<Piece>>::empty()));
    assert(text.last() == piece_letter(piece));
    assert(piece_from_letter(piece_letter(piece)) == Some(piece));
    assert(cells(piece_letter(piece)) == Some(seq![Some(piece)]));
    assert(Seq::<Option<Piece>>::empty() + seq![Some(piece)] =~= seq![Some(piece)]);
}

/// The text of the rest of a rank stands for its empty squares not yet
/// written followed by its remaining cells, and holds only digits and letters.
proof fn lemma_rank_text(row: Seq<Option<Piece>>, i: int, empties: int)
    requires
        row.len() == 8,
        0 <= empties <= i <= 8,
    ensures
        expand_rank(rank_text_from(row, i, empties)) == Some(
            Seq::new(empties as nat, |j: int| None::<Piece>) + row.subrange(i, 8),
        ),
        forall|k: int|
            0 <= k < rank_text_from(row, i, empties).len() ==> cells(#[trigger] rank_text_from(row, i, empties)[k])
                is Some,
    decreases 8 - i,
{
    let nones = Seq::new(empties as nat, |j: int| None::<Piece>);
    if i >= 8 {
        lemma_empties(empties);
        assert(nones + row.subrange(8, 8) =~= nones);
    } else {
        match row[i] {
            None => {
                lemma_rank_text(row, i + 1, empties + 1);
                assert(Seq::new((empties + 1) as nat, |j: int| None::<Piece>) + row.subrange(i + 1, 8) =~= nones
                    + row.subrange(i, 8));
            },
            Some(piece) => {
                lemma_rank_text(row, i + 1, 0);
                lemma_empties(empties);
                lemma_letter(piece);
                let head = empties_text(empties);
                let letter = seq![piece_letter(piece)];
                let rest = rank_text_from(row, i + 1, 0);
                lemma_expand_concat(head, letter);
                lemma_expand_concat(head + letter, rest);
                assert(Seq::new(0nat, |j: int| None::<Piece>) + row.subrange(i + 1, 8) =~= row.subrange(i + 1, 8));
                assert(nones + seq![Some(piece)] + row.subrange(i + 1, 8) =~= nones + row.subrange(i, 8));
                let text = head + letter + rest;
                assert forall|k: int| 0 <= k < text.len() implies cells(#[trigger] text[k]) is Some by {
                    if k < head.len() {
                        assert(text[k] == head[k]);
                    } else if k < head.len() + 1 {
                        assert(text[k] == piece_letter(piece));
                    } else {
                        assert(text[k] == rest[k - head.len() - 1]);
                    }
                }
            },
        }
    }
}

/// Reading the written placement gives back the squares.
proof fn lemma_placement_round_trip(squares: Seq<Option<Piece>>)
    requires
        squares.len() == 64,
    ensures
        placement(placement_text(squares)) == Some(squares),
        forall|k: int| 0 <= k < placement_text(squares).len() ==> #[trigger] placement_text(squares)[k] != SPACE,
{
    lemma_placement_split(squares, 8);
    let ranks = split(placement_text(squares), SLASH);
    assert forall|r: int| 0 <= r < 8 implies #[trigger] full_rank(ranks[r]) && expand_rank(ranks[r])->0 == rank_row(
        squares,
        7 - r,
    ) by {
        assert(ranks[r] == rank_text(squares, 7 - r));
        lemma_rank_text(rank_row(squares, 7 - r), 0, 0);
        assert(Seq::new(0nat, |j: int| None::<Piece>) + rank_row(squares, 7 - r).subrange(0, 8) =~= rank_row(
            squares,
            7 - r,
        ));
    }
    let read = Seq::new(64, |i: int| expand_rank(ranks[7 - rank_of(i)])->0[file_of(i)]);
    assert forall|i: int| 0 <= i < 64 implies read[i] == squares[i] by {
        let r = 7 - rank_of(i);
        assert(0 <= r < 8);
        assert(full_rank(ranks[r]));
        assert(expand_rank(ranks[r])->0 == rank_row(squares, rank_of(i)));
        assert(i == rank_of(i) * 8 + file_of(i));
        assert(rank_row(squares, rank_of(i))[file_of(i)] == squares[rank_of(i) * 8 + file_of(i)]);
    }
    assert(read =~= squares);
}

/// The written placement splits into the texts of the ranks, eighth first,
/// and holds no space.
proof fn lemma_placement_split(squares: Seq<Option<Piece>>, n: int)
    requires
        squares.len() == 64,
        1 <= n <= 8,
    ensures
        split(placement_text_upto(squares, n), SLASH).len() == n,
        forall|r: int| 0 <= r < n ==> #[trigger] split(placement_text_upto(squares, n), SLASH)[r] == rank_text(squares, 7 - r),
        forall|k: int|
            0 <= k < placement_text_upto(squares, n).len() ==> #[trigger] placement_text_upto(squares, n)[k] != SPACE,
    decreases n,
{
    let last = rank_text(squares, 8 - n);
    lemma_rank_text(rank_row(squares, 8 - n), 0, 0);
    assert forall|k: int| 0 <= k < last.len() implies last[k] != SLASH && last[k] != SPACE by {
        assert(cells(last[k]) is Some);
    }
    lemma_split_whole(last, SLASH);
    if n > 1 {
        lemma_placement_split(squares, n - 1);
        let front = placement_text_upto(squares, n - 1);
        lemma_split_concat(front, last, SLASH);
        let text = front + seq![SLASH] + last;
        assert forall|k: int| 0 <= k < text.len() implies #[trigger] text[k] != SPACE by {
            if k < front.len() {
                assert(text[k] == front[k]);
            } else if k > front.len() {
                assert(text[k] == last[k - front.len() - 1]);
            }
        }
    }
}

/// The digits of a number read back as the number.
proof fn lemma_decimal_round_trip(n: nat)
    ensures
        decimal(decimal_text(n)) == Some(n),
        decimal_text(n).len() > 0,
        forall|k: int| 0 <= k < decimal_text(n).len() ==> 48 <= #[trigger] decimal_text(n)[k] <= 57,
    decreases n,
{
    if n >= 10 {
        lemma_decimal_round_trip(n / 10);
        let text = decimal_text(n);
        assert(text.drop_last() =~= decimal_text(n / 10));
        assert(n == (n / 10) * 10 + n % 10);
    } else {
        assert(decimal_text(n).drop_last() =~= Seq::<u8>::empty());
    }
}

/// The written castling rights read back as the rights.
proof fn lemma_castling_round_trip(rights: CastlingRights)
    ensures
        castling_field(castling_text(rights)) == Some(rights),
        forall|k: int| 0 <= k < castling_text(rights).len() ==> #[trigger] castling_text(rights)[k] != SPACE,
{
    let text = castling_text(rights);
    if rights.white_king_side || rights.white_queen_side || rights.black_king_side || rights.black_queen_side {
        reveal_with_fuel(castling_letters, 5);
        let a = if rights.white_king_side {
            seq![75u8]
        } else {
            Seq::empty()
        };
        let b = if rights.white_queen_side {
            seq![81u8]
        } else {
            Seq::empty()
        };
        let c = if rights.black_king_side {
            seq![107u8]
        } else {
            Seq::empty()
        };
        let d = if rights.black_queen_side {
            seq![113u8]
        } else {
            Seq::empty()
        };
        assert(text == a + b + c + d);
        assert(text != seq![DASH]) by {
            if text == seq![DASH] {
                assert(text[0] == DASH);
            }
        }
        let ab = a + b;
        let abc = ab + c;
        assert(abc + d =~= text);
        assert(castling_letters(text) == Some(rights)) by {
            assert(castling_letters(Seq::<u8>::empty()) == Some(
                CastlingRights {
                    white_king_side: false,
                    white_queen_side: false,
                    black_king_side: false,
                    black_queen_side: false,
                },
            ));
            lemma_castling_step(Seq::empty(), rights.white_king_side, 75);
            assert(Seq::<u8>::empty() + a =~= a);
            lemma_castling_step(a, rights.white_queen_side, 81);
            lemma_castling_step(ab, rights.black_king_side, 107);
            lemma_castling_step(abc, rights.black_queen_side, 113);
        }
    }
}

/// Appending a castling letter, or nothing, to letters read so far.
proof fn lemma_castling_step(before: Seq<u8>, present: bool, letter: u8)
    ensures
        castling_letters(before + if present {
            seq![letter]
        } else {
            Seq::empty()
        }) == if present {
            match castling_letters(before) {
                Some(rights) => if letter == 75 {
                    Some(CastlingRights { white_king_side: true, ..rights })
                } else if letter == 81 {
                    Some(CastlingRights { white_queen_side: true, ..rights })
                } else if letter == 107 {
                    Some(CastlingRights { black_king_side: true, ..rights })
                } else if letter == 113 {
                    Some(CastlingRights { black_queen_side: true, ..rights })
                } else {
                    None
                },
                None => None,
            }
        } else {
            castling_letters(before)
        },
{
    if present {
        assert((before + seq![letter]).drop_last() =~= before);
    } else {
        assert(before + Seq::<u8>::empty() =~= before);
    }
}

/// A field without a space is one field.
proof fn lemma_no_space_field(field: Seq<u8>)
    requires
        forall|k: int| 0 <= k < field.len() ==> #[trigger] field[k] != SPACE,
    ensures
        split(field, SPACE) == seq![field],
{
    lemma_split_whole(field, SPACE);
}

/// Reading the written notation of a position gives back the position, when
/// it records no capture (the notation has no place for one).
pub proof fn lemma_fen_round_trip(v: BoardView)
    requires
        v.squares.len() == 64,
        v.state.wf(),
        v.state.captured is None,
    ensures
        fen_board(fen_text(v)) == Some(v),
{
    let placement_field = placement_text(v.squares);
    let side = if v.white_to_move {
        seq![119u8]
    } else {
        seq![98u8]
    };
    let castling = castling_text(v.state.castling_rights);
    let en_passant = en_passant_text(v.state.en_passant_square);
    let clock = decimal_text(v.state.half_move_clock as nat);
    let moves = seq![49u8];
    lemma_placement_round_trip(v.squares);
    lemma_castling_round_trip(v.state.castling_rights);
    lemma_decimal_round_trip(v.state.half_move_clock as nat);
    lemma_decimal_round_trip(1);
    assert(decimal_text(1) =~= moves);
    lemma_no_space_field(placement_field);
    lemma_no_space_field(side);
    lemma_no_space_field(castling);
    assert forall|k: int| 0 <= k < en_passant.len() implies #[trigger] en_passant[k] != SPACE by {}
    lemma_no_space_field(en_passant);
    assert forall|k: int| 0 <= k < clock.len() implies #[trigger] clock[k] != SPACE by {
        assert(48 <= clock[k] <= 57);
    }
    lemma_no_space_field(clock);
    lemma_no_space_field(moves);
    let t1 = placement_field + seq![SPACE] + side;
    let t2 = t1 + seq![SPACE] + castling;
    let t3 = t2 + seq![SPACE] + en_passant;
    let t4 = t3 + seq![SPACE] + clock;
    let t5 = t4 + seq![SPACE] + moves;
    assert(t5 == fen_text(v));
    lemma_split_concat(placement_field, side, SPACE);
    lemma_split_concat(t1, castling, SPACE);
    lemma_split_concat(t2, en_passant, SPACE);
    lemma_split_concat(t3, clock, SPACE);
    lemma_split_concat(t4, moves, SPACE);
    let fields = split(t5, SPACE);
    assert(fields =~= seq![placement_field, side, castling, en_passant, clock, moves]);
    match v.state.en_passant_square {
        Some(square) => {
            assert(en_passant != seq![DASH]) by {
                if en_passant == seq![DASH] {
                    assert(en_passant.len() == 1);
                }
            }
            assert(square.0 == rank_of(square.0 as int) * 8 + file_of(square.0 as int));
            assert(spec_square_from_notation(en_passant) == Some(square));
        },
        None => {},
    }
    assert(side == seq![119u8] <==> v.white_to_move) by {
        if !v.white_to_move && side == seq![119u8] {
            assert(side[0] == 98);
        }
    }
    let read = fen_board(t5)->0;
    assert(read.squares == v.squares);
    assert(read.state == v.state);
    assert(read =~= v);
}

impl Board {
    /// Writes the position in Forsyth-Edwards Notation (see `fen_text`).
    pub fn to_fen(&self) -> (fen: Vec<u8>)
        ensures
            fen@ == fen_text(self@),
    {
        let mut fen: Vec<u8> = Vec::new();
        self.write_placement(&mut fen);
        let ghost placement_part = fen@;
        fen.push(SPACE);
        fen.push(if self.white_to_move { 119 } else { 98 });
        fen.push(SPACE);
        let ghost side_part = fen@;
        write_castling(&mut fen, self.game_state.castling_rights);
        let ghost castling_part = fen@;
        fen.push(SPACE);
        write_en_passant(&mut fen, self.game_state.en_passant_square);
        let ghost en_passant_part = fen@;
        fen.push(SPACE);
        write_decimal(&mut fen, self.game_state.half_move_clock as u64);
        let ghost clock_part = fen@;
        fen.push(SPACE);
        fen.push(49);
        proof {
            let v = self@;
            let side = if v.white_to_move {
                seq![119u8]
            } else {
                seq![98u8]
            };
            assert(side_part =~= placement_text(v.squares) + seq![SPACE] + side + seq![SPACE]);
            assert(fen@ =~= fen_text(v));
        }
        fen
    }

    /// Writes the piece placement.
    fn write_placement(&self, fen: &mut Vec<u8>)
        ensures
            final(fen)@ == old(fen)@ + placement_text(self@.squares),
    {
        let ghost start = fen@;
        let mut n: u8 = 1;
        while n <= 8
            invariant
                1 <= n <= 9,
                fen@ == start + (if n == 1 {
                    Seq::<u8>::empty()
                } else {
                    placement_text_upto(self@.squares, n - 1)
                }),
            decreases 9 - n,
        {
            if n > 1 {
                fen.push(SLASH);
            }
            self.write_rank(fen, 8 - n);
            proof {
                if n == 1 {
                    assert(fen@ =~= start + placement_text_upto(self@.squares, 1));
                } else {
                    assert(fen@ =~= start + placement_text_upto(self@.squares, n as int));
                }
            }
            n = n + 1;
        }
    }

    /// Writes the text of a rank.
    fn write_rank(&self, fen: &mut Vec<u8>, rank: u8)
        requires
            rank < 8,
        ensures
            final(fen)@ == old(fen)@ + rank_text(self@.squares, rank as int),
    {
        let ghost row = rank_row(self@.squares, rank as int);
        let ghost start = fen@;
        let mut empties: u8 = 0;
        let mut file: u8 = 0;
        while file < 8
            invariant
                rank < 8,
                file <= 8,
                empties <= file,
                row == rank_row(self@.squares, rank as int),
                fen@ + rank_text_from(row, file as int, empties as int) == start + rank_text(self@.squares, rank as int),
            decreases 8 - file,
        {
            proof {
                assert(row[file as int] == self@.squares[rank * 8 + file]);
                assert(self@.squares[rank * 8 + file] == self.spec_piece_at(rank * 8 + file));
            }
            match self.piece_at(Square(rank * 8 + file)) {
                None => {
                    empties = empties + 1;
                },
                Some(piece) => {
                    let ghost rest = rank_text_from(row, file + 1, 0);
                    let ghost before = fen@;
                    if empties > 0 {
                        fen.push(48 + empties);
                    }
                    fen.push(piece_letter_byte(piece));
                    proof {
                        assert(fen@ + rest =~= before + (empties_text(empties as int) + seq![piece_letter(piece)] + rest));
                    }
                    empties = 0;
                },
            }
            file = file + 1;
        }
        let ghost before = fen@;
        if empties > 0 {
            fen.push(48 + empties);
        }
        proof {
            assert(fen@ =~= before + empties_text(empties as int));
        }
    }
}

/// Writes the castling rights.
fn write_castling(fen: &mut Vec<u8>, rights: CastlingRights)
    ensures
        final(fen)@ == old(fen)@ + castling_text(rights),
{
    let ghost start = fen@;
    if !rights.white_king_side && !rights.white_queen_side && !rights.black_king_side && !rights.black_queen_side {
        fen.push(DASH);
    } else {
        if rights.white_king_side {
            fen.push(75);
        }
        if rights.white_queen_side {
            fen.push(81);
        }
        if rights.black_king_side {
            fen.push(107);
        }
        if rights.black_queen_side {
            fen.push(113);
        }
    }
    proof {
        assert(fen@ =~= start + castling_text(rights));
    }
}

/// Writes the en passant square, or `-`.
fn write_en_passant(fen: &mut Vec<u8>, square: Option<Square>)
    ensures
        final(fen)@ == old(fen)@ + en_passant_text(square),
{
    let ghost start = fen@;
    match square {
        Some(square) => {
            fen.push(97 + square.0 % 8);
            fen.push(49 + square.0 / 8);
        },
        None => fen.push(DASH),
    }
    proof {
        assert(fen@ =~= start + en_passant_text(square));
    }
}

/// The letter of a piece.
fn piece_letter_byte(piece: Piece) -> (letter: u8)
    ensures
        letter == piece_letter(piece),
{
    match piece {
        Piece::WhitePawn => 80,
        Piece::WhiteKnight => 78,
        Piece::WhiteBishop => 66,
        Piece::WhiteRook => 82,
        Piece::WhiteQueen => 81,
        Piece::WhiteKing => 75,
        Piece::BlackPawn => 112,
        Piece::BlackKnight => 110,
        Piece::BlackBishop => 98,
        Piece::BlackRook => 114,
        Piece::BlackQueen => 113,
        Piece::BlackKing => 107,
    }
}

/// Writes the decimal digits of a number.
fn write_decimal(fen: &mut Vec<u8>, n: u64)
    ensures
        final(fen)@ == old(fen)@ + decimal_text(n as nat),
    decreases n,
{
    if n >= 10 {
        write_decimal(fen, n / 10);
    }
    fen.push(48 + (n % 10) as u8);
    proof {
        if n < 10 {
            assert(final(fen)@ =~= old(fen)@ + decimal_text(n as nat));
        } else {
            assert(decimal_text(n as nat) == decimal_text((n / 10) as nat).push((48 + n % 10) as u8));
        }
    }
}

} // verus!

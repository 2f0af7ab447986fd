//! Tables of history scores that search keeps to order moves and correct evaluations.

use vstd::prelude::*;
use crate::piece::{Piece, piece_index, piece_kind, lemma_piece_index};

use crate::move_data::{Flag, Move};
use crate::encoded_move::{EncodedMove, encode};
use crate::move_generator::{MoveGenerator, lemma_pseudo_legal_can_make};
use crate::rules::{legal, legal_moves, is_capture, listed, lemma_moves_upto_listed};
use crate::perft::lemma_moves_upto_legal;

use crate::pv::Ply;
use crate::search::{Search, lemma_moves_own_piece};

verus! {

/// Rounds `a / b` toward zero, as integer division in Rust does.
pub open spec fn div_toward_zero(a: int, b: int) -> int {
    if a >= 0 {
        a / b
    } else {
        -((-a) / b)
    }
}

/// Weight, out of 1024, that a correction measured with `ply_remaining`
/// plies of search gets: `(ply_remaining + 1)²`, at most 128.
pub open spec fn correction_weight(ply_remaining: int) -> int {
    let squared = (ply_remaining + 1) * (ply_remaining + 1);
    if squared < 128 {
        squared
    } else {
        128
    }
}

/// The value of a correction entry after an update with `scaled_error`.
pub open spec fn corrected(value: int, ply_remaining: int, scaled_error: int) -> int {
    let weight = correction_weight(ply_remaining);
    let mixed = div_toward_zero(value * (1024 - weight) + scaled_error * weight, 1024);
    if mixed < -16384 {
        -16384
    } else if mixed > 16384 {
        16384
    } else {
        mixed
    }
}

/// `(p + 1)² = p² + 2p + 1`.
proof fn lemma_square_of_successor(p: int)
    by (nonlinear_arith)
    ensures
        p * p + 2 * p + 1 == (p + 1) * (p + 1),
{
}

/// A correction to the static evaluation learnt from earlier searches.
#[derive(Clone, Copy, PartialEq, Eq, Structural, Debug)]
pub struct CorrectionHistoryEntry(pub i16);

impl CorrectionHistoryEntry {
    /// Moves the correction toward `scaled_error`, the more the deeper the
    /// search that measured it, keeping it within ±16384.
    pub fn update(&mut self, ply_remaining: u8, scaled_error: i32)
        requires
            i32::MIN <= scaled_error * correction_weight(ply_remaining as int) <= i32::MAX,
            i32::MIN <= old(self).0 * (1024 - correction_weight(ply_remaining as int)) + scaled_error
                * correction_weight(ply_remaining as int) <= i32::MAX,
        ensures
            final(self).0 == corrected(old(self).0 as int, ply_remaining as int, scaled_error as int),
    {
        let p = ply_remaining as i32;
        proof {
            lemma_square_of_successor(p as int);
        }
        assert(0 <= p * p <= 65025) by (nonlinear_arith)
            requires
                0 <= p <= 255,
        ;
        let squared = p * p + 2 * p + 1;
        let new_weight = if squared < 128 {
            squared
        } else {
            128
        };
        let value = self.0 as i32;
        assert(-32768 * 1024 <= value * (1024 - new_weight) <= 32767 * 1024) by (nonlinear_arith)
            requires
                -32768 <= value <= 32767,
                0 <= 1024 - new_weight <= 1024,
        ;
        let mixed = value * (1024 - new_weight) + scaled_error * new_weight;
        let new_value = mixed / 1024;
        assert(new_value == div_toward_zero(mixed as int, 1024));
        let clamped = if new_value < -16384 {
            -16384
        } else if new_value > 16384 {
            16384
        } else {
            new_value
        };
        *self = CorrectionHistoryEntry(clamped as i16);
    }
}

/// Corrections for each side and each of `LEN` pawn or piece configurations.
pub struct CorrectionHistory<const LEN: usize> {
    /// Black's `LEN` entries, then White's.
    entries: Vec<CorrectionHistoryEntry>,
}

/// Position of a side's entry in the table.
pub open spec fn correction_position(len: int, white_to_move: bool, index: int) -> int {
    (if white_to_move { len } else { 0 }) + index
}

/// Every correction has a place of its own: an index below `len` for a
/// side lies in the table, and a write through `get_mut` for one side and
/// index changes what `get` reads for that side and index only, so the two
/// sides' tables are independent.
pub proof fn lemma_correction_write(
    entries: Seq<CorrectionHistoryEntry>,
    len: int,
    value: CorrectionHistoryEntry,
    white_to_move: bool,
    index: int,
    other_white_to_move: bool,
    other_index: int,
)
    requires
        entries.len() == 2 * len,
        0 <= index < len,
        0 <= other_index < len,
    ensures
        0 <= correction_position(len, white_to_move, index) < 2 * len,
        entries.update(correction_position(len, white_to_move, index), value)[correction_position(
            len,
            other_white_to_move,
            other_index,
        )] == if white_to_move == other_white_to_move && index == other_index {
            value
        } else {
            entries[correction_position(len, other_white_to_move, other_index)]
        },
{
}

impl<const LEN: usize> CorrectionHistory<LEN> {
    /// All entries: Black's first, then White's.
    pub closed spec fn view(&self) -> Seq<CorrectionHistoryEntry> {
        self.entries@
    }

    /// Entry of a side.
    pub open spec fn entry(&self, white_to_move: bool, index: int) -> CorrectionHistoryEntry {
        self@[correction_position(LEN as int, white_to_move, index)]
    }

    /// A table of zero corrections.
    pub fn new() -> (history: Self)
        requires
            LEN <= usize::MAX / 2,
        ensures
            history@.len() == 2 * LEN,
            forall|i: int| 0 <= i < 2 * LEN ==> (#[trigger] history@[i]).0 == 0,
    {
        CorrectionHistory { entries: vec![CorrectionHistoryEntry(0); 2 * LEN] }
    }

    /// The correction of a side for a configuration.
    pub fn get(&self, white_to_move: bool, index: usize) -> (entry: CorrectionHistoryEntry)
        requires
            self@.len() == 2 * LEN,
            index < LEN,
        ensures
            entry == self.entry(white_to_move, index as int),
    {
        let _ = self.entries.len();
        let position = if white_to_move { LEN + index } else { index };
        self.entries[position]
    }

    /// The correction of a side for a configuration, to change it.
    pub fn get_mut(&mut self, white_to_move: bool, index: usize) -> (entry: &mut CorrectionHistoryEntry)
        requires
            old(self)@.len() == 2 * LEN,
            index < LEN,
        ensures
            *entry == old(self).entry(white_to_move, index as int),
            final(self)@ == old(self)@.update(
                correction_position(LEN as int, white_to_move, index as int),
                *final(entry),
            ),
    {
        let _ = self.entries.len();
        let position = if white_to_move { LEN + index } else { index };
        &mut self.entries[position]
    }

    /// Sets every correction to `value`.
    pub fn fill(&mut self, value: i16)
        ensures
            final(self)@.len() == old(self)@.len(),
            forall|i: int| 0 <= i < final(self)@.len() ==> (#[trigger] final(self)@[i]).0 == value,
    {
        let len = self.entries.len();
        let mut i: usize = 0;
        while i < len
            invariant
                len == self@.len(),
                len == old(self)@.len(),
                i <= len,
                forall|j: int| 0 <= j < i ==> (#[trigger] self@[j]).0 == value,
            decreases len - i,
        {
            self.entries.set(i, CorrectionHistoryEntry(value));
            i = i + 1;
        }
    }
}

/// Number of entries of a continuation history.
pub const CONTINUATION_HISTORY_LEN: usize = 294912;

/// Position of an entry of the continuation history.
pub open spec fn continuation_position(
    previous_piece: int,
    previous_to: int,
    current_piece: int,
    current_to: int,
) -> int {
    ((previous_piece * 64 + previous_to) * 6 + current_piece) * 64 + current_to
}

/// A number written in a base `r` digit by digit has one reading only.
proof fn lemma_digit(x: int, a: int, y: int, b: int, r: int)
    requires
        0 <= a < r,
        0 <= b < r,
        x * r + a == y * r + b,
    ensures
        x == y,
        a == b,
{
    assert((x - y) * r == b - a) by (nonlinear_arith)
        requires
            x * r + a == y * r + b,
    ;
    if x - y >= 1 {
        assert((x - y) * r >= r) by (nonlinear_arith)
            requires
                x - y >= 1,
                r > 0,
        ;
    } else if x - y <= -1 {
        assert((x - y) * r <= -r) by (nonlinear_arith)
            requires
                x - y <= -1,
                r > 0,
        ;
    }
}

/// Whether an index tuple of the continuation history is in range.
pub open spec fn continuation_index_valid(previous_piece: int, previous_to: int, current_piece: int, current_to: int) -> bool {
    0 <= previous_piece < 12 && 0 <= previous_to < 64 && 0 <= current_piece < 6 && 0 <= current_to < 64
}

/// Every entry of the continuation history has a place of its own in the
/// table: a tuple in range lies in the table, and a write through `get_mut`
/// at one tuple changes what `get` reads at that tuple only.
pub proof fn lemma_continuation_write(
    table: Seq<i16>,
    value: i16,
    previous_piece: int,
    previous_to: int,
    current_piece: int,
    current_to: int,
    other_previous_piece: int,
    other_previous_to: int,
    other_current_piece: int,
    other_current_to: int,
)
    requires
        table.len() == CONTINUATION_HISTORY_LEN,
        continuation_index_valid(previous_piece, previous_to, current_piece, current_to),
        continuation_index_valid(other_previous_piece, other_previous_to, other_current_piece, other_current_to),
    ensures
        0 <= continuation_position(previous_piece, previous_to, current_piece, current_to) < CONTINUATION_HISTORY_LEN,
        table.update(continuation_position(previous_piece, previous_to, current_piece, current_to), value)[
            continuation_position(other_previous_piece, other_previous_to, other_current_piece, other_current_to)]
            == if previous_piece == other_previous_piece && previous_to == other_previous_to && current_piece
            == other_current_piece && current_to == other_current_to {
            value
        } else {
            table[continuation_position(other_previous_piece, other_previous_to, other_current_piece, other_current_to)]
        },
{
    lemma_continuation_bounds(previous_piece, previous_to, current_piece, current_to);
    lemma_continuation_bounds(other_previous_piece, other_previous_to, other_current_piece, other_current_to);
    let p = continuation_position(previous_piece, previous_to, current_piece, current_to);
    let q = continuation_position(other_previous_piece, other_previous_to, other_current_piece, other_current_to);
    if p == q {
        let x = (previous_piece * 64 + previous_to) * 6 + current_piece;
        let y = (other_previous_piece * 64 + other_previous_to) * 6 + other_current_piece;
        lemma_digit(x, current_to, y, other_current_to, 64);
        lemma_digit(previous_piece * 64 + previous_to, current_piece, other_previous_piece * 64 + other_previous_to, other_current_piece, 6);
        lemma_digit(previous_piece, previous_to, other_previous_piece, other_previous_to, 64);
    }
}

/// A tuple in range has its place in the table.
proof fn lemma_continuation_bounds(previous_piece: int, previous_to: int, current_piece: int, current_to: int)
    requires
        continuation_index_valid(previous_piece, previous_to, current_piece, current_to),
    ensures
        0 <= continuation_position(previous_piece, previous_to, current_piece, current_to) < CONTINUATION_HISTORY_LEN,
{
    assert(0 <= ((previous_piece * 64 + previous_to) * 6 + current_piece) * 64 + current_to < 294912)
        by (nonlinear_arith)
        requires
            0 <= previous_piece < 12,
            0 <= previous_to < 64,
            0 <= current_piece < 6,
            0 <= current_to < 64,
    ;
}

/// How good a move has been after a given previous move: indexed by the
/// previous move's piece (0 to 11) and target square, then by the current
/// move's piece kind (0 to 5) and target square.
pub struct ContinuationHistory {
    table: Vec<i16>,
}

impl ContinuationHistory {
    pub closed spec fn view(&self) -> Seq<i16> {
        self.table@
    }

    /// The table has its full size.
    pub open spec fn wf(&self) -> bool {
        self@.len() == CONTINUATION_HISTORY_LEN
    }

    /// A table of zeros.
    pub fn new() -> (history: ContinuationHistory)
        ensures
            history.wf(),
            forall|i: int| 0 <= i < CONTINUATION_HISTORY_LEN ==> #[trigger] history@[i] == 0,
    {
        ContinuationHistory { table: vec![0i16; CONTINUATION_HISTORY_LEN] }
    }

    /// Sets every entry to `value`.
    pub fn fill(&mut self, value: i16)
        requires
            old(self).wf(),
        ensures
            final(self).wf(),
            forall|i: int| 0 <= i < CONTINUATION_HISTORY_LEN ==> #[trigger] final(self)@[i] == value,
    {
        let mut i: usize = 0;
        while i < CONTINUATION_HISTORY_LEN
            invariant
                self.wf(),
                i <= CONTINUATION_HISTORY_LEN,
                forall|j: int| 0 <= j < i ==> #[trigger] self@[j] == value,
            decreases CONTINUATION_HISTORY_LEN - i,
        {
            self.table.set(i, value);
            i = i + 1;
        }
    }

    /// The score of a move after a previous move.
    pub fn get(&self, previous_piece: usize, previous_to: usize, current_piece: usize, current_to: usize) -> (score: i16)
        requires
            self.wf(),
            previous_piece < 12,
            previous_to < 64,
            current_piece < 6,
            current_to < 64,
        ensures
            score == self@[continuation_position(
                previous_piece as int,
                previous_to as int,
                current_piece as int,
                current_to as int,
            )],
    {
        self.table[((previous_piece * 64 + previous_to) * 6 + current_piece) * 64 + current_to]
    }

    /// The score of a move after a previous move, to change it.
    pub fn get_mut(&mut self, previous_piece: usize, previous_to: usize, current_piece: usize, current_to: usize) -> (score: &mut i16)
        requires
            old(self).wf(),
            previous_piece < 12,
            previous_to < 64,
            current_piece < 6,
            current_to < 64,
        ensures
            *score == old(self)@[continuation_position(
                previous_piece as int,
                previous_to as int,
                current_piece as int,
                current_to as int,
            )],
            final(self)@ == old(self)@.update(
                continuation_position(
                    previous_piece as int,
                    previous_to as int,
                    current_piece as int,
                    current_to as int,
                ),
                *final(score),
            ),
    {
        &mut self.table[((previous_piece * 64 + previous_to) * 6 + current_piece) * 64 + current_to]
    }
}

/// Guessed worth of a move, to try the best moves first.
pub type MoveGuessNum = i32;

/// A move with its guessed worth.
#[derive(Clone, Copy, Debug)]
pub struct MoveGuess {
    guess: MoveGuessNum,
    pub move_data: EncodedMove,
}

impl MoveGuess {
    /// The guessed worth.
    pub closed spec fn spec_guess(&self) -> MoveGuessNum {
        self.guess
    }

    /// The move.
    pub closed spec fn spec_move_data(&self) -> EncodedMove {
        self.move_data
    }

    /// The guessed worth.
    pub fn guess(&self) -> (guess: MoveGuessNum)
        ensures
            guess == self.spec_guess(),
    {
        self.guess
    }
}

/// Guess of the move found best by an earlier search.
pub const HASH_MOVE_BONUS: MoveGuessNum = 0x7fff_ffff;
/// Bonus of a capture.
pub const CAPTURE_BONUS: MoveGuessNum = 50_000_000;
/// Guess of the move that last caused a cut-off at the same ply.
pub const KILLER_MOVE_BONUS: MoveGuessNum = 40_000_000;
pub const QUEEN_PROMOTION_BONUS: MoveGuessNum = 30_000_000;
pub const KNIGHT_PROMOTION_BONUS: MoveGuessNum = 20_000_000;
pub const ROOK_PROMOTION_BONUS: MoveGuessNum = 0;
pub const BISHOP_PROMOTION_BONUS: MoveGuessNum = 0;

/// Worth of the piece captured, by piece: 500 times 10 for a pawn, 30 for
/// a knight, 31 for a bishop, 50 for a rook, 90 for a queen, and nothing
/// for a king, which cannot be captured.
pub const CAPTURING_SCORE: [i32; 12] = [5000, 15000, 15500, 25000, 45000, 0, 5000, 15000, 15500, 25000, 45000, 0];

/// Most valuable victim, least valuable attacker: 10 per kind of the victim
/// (pawn 1 to queen 5) plus 5, less the kind of the attacker (pawn 0 to
/// king 5); nothing for a king as victim.
pub open spec fn mvv_lva(victim: Piece, attacker: Piece) -> int {
    if piece_kind(victim) == 5 {
        0
    } else {
        (piece_kind(victim) + 1) * 10 + 5 - piece_kind(attacker)
    }
}

/// Position in the quiet history of a move of a side.
pub open spec fn quiet_index(white: bool, from: int, to: int) -> int {
    (if white {
        4096int
    } else {
        0int
    }) + from + to * 64
}

/// Position in the capture history of a capture.
pub open spec fn capture_index(moving: Piece, to: int, captured_kind: int) -> int {
    piece_index(moving) * 384 + to * 6 + captured_kind
}

/// The guessed worth of a move in the search's position: the quiet history
/// for en passant, castling and double pawn steps; a fixed bonus for a
/// promotion; for a capture, the capture bonus plus the worth of the victim
/// plus the capture history; for a quiet move, the quiet history plus,
/// below the root, the continuation history after the previous move.
pub open spec fn guessed_move_value(search: Search, m: Move, ply_from_root: int) -> int {
    let board = search.spec_board();
    let history = search.spec_history();
    let white = board.white_to_move;
    let from = m.from.0 as int;
    let to = m.to.0 as int;
    match m.flag {
        Flag::EnPassant | Flag::Castle | Flag::PawnTwoUp => history.quiet()[quiet_index(white, from, to)] as int,
        Flag::BishopPromotion => BISHOP_PROMOTION_BONUS as int,
        Flag::KnightPromotion => KNIGHT_PROMOTION_BONUS as int,
        Flag::RookPromotion => ROOK_PROMOTION_BONUS as int,
        Flag::QueenPromotion => QUEEN_PROMOTION_BONUS as int,
        Flag::Normal => {
            let moving = board.spec_friendly_piece_at(from)->0;
            match board.spec_enemy_piece_at(to) {
                Some(captured) => CAPTURE_BONUS + CAPTURING_SCORE@[piece_index(captured)]
                    + history.captures()[capture_index(moving, to, piece_kind(captured))],
                None => history.quiet()[quiet_index(white, from, to)] + if ply_from_root != 0 {
                    let previous = history.continuation_indices()[ply_from_root - 1];
                    history.continuation()@[continuation_position(
                        piece_index(previous.0),
                        previous.1.0 as int,
                        piece_kind(moving),
                        to,
                    )] as int
                } else {
                    0
                },
            }
        },
    }
}

/// The guessed worth of a capture: most valuable victim, least valuable
/// attacker, with a bonus for promoting to a knight or a queen; nothing for
/// en passant, and -1 for promoting to a bishop or a rook.
pub open spec fn guessed_capture_value(search: Search, m: Move) -> int {
    let board = search.spec_board();
    let from = m.from.0 as int;
    let to = m.to.0 as int;
    let victim_and_attacker = mvv_lva(board.spec_enemy_piece_at(to)->0, board.spec_friendly_piece_at(from)->0);
    match m.flag {
        Flag::EnPassant => 0,
        Flag::BishopPromotion | Flag::RookPromotion => -1,
        Flag::KnightPromotion => 1300 + victim_and_attacker,
        Flag::QueenPromotion => 1900 + victim_and_attacker,
        _ => victim_and_attacker,
    }
}

/// How the guessed worth of a capture depends on its promotion: promoting to
/// a queen adds 1900 to the plain capture of the same piece by the same pawn,
/// to a knight 1300, and promoting to a bishop or a rook ranks below every
/// plain capture; a plain capture is worth more the more valuable its victim
/// (a king aside) and the less valuable its attacker.
pub proof fn lemma_capture_guesses(search: Search, m: Move)
    requires
        search.spec_board().spec_enemy_piece_at(m.to.0 as int) is Some,
        search.spec_board().spec_friendly_piece_at(m.from.0 as int) is Some,
    ensures
        guessed_capture_value(search, Move { flag: Flag::QueenPromotion, ..m }) == guessed_capture_value(
            search,
            Move { flag: Flag::Normal, ..m },
        ) + 1900,
        guessed_capture_value(search, Move { flag: Flag::KnightPromotion, ..m }) == guessed_capture_value(
            search,
            Move { flag: Flag::Normal, ..m },
        ) + 1300,
        guessed_capture_value(search, Move { flag: Flag::BishopPromotion, ..m }) < guessed_capture_value(
            search,
            Move { flag: Flag::Normal, ..m },
        ),
        guessed_capture_value(search, Move { flag: Flag::RookPromotion, ..m }) < guessed_capture_value(
            search,
            Move { flag: Flag::Normal, ..m },
        ),
        guessed_capture_value(search, Move { flag: Flag::QueenPromotion, ..m }) > guessed_capture_value(
            search,
            Move { flag: Flag::KnightPromotion, ..m },
        ),
        guessed_capture_value(search, Move { flag: Flag::Normal, ..m }) >= 0,
{
    let board = search.spec_board();
    lemma_piece_index(board.spec_enemy_piece_at(m.to.0 as int)->0, 0);
    lemma_piece_index(board.spec_friendly_piece_at(m.from.0 as int)->0, 0);
}

/// Most valuable victim, least valuable attacker: taking a more valuable
/// piece (a king aside) is worth more whatever takes it, and with the same
/// victim a less valuable attacker is worth more.
pub proof fn lemma_mvv_lva_order(victim: Piece, other_victim: Piece, attacker: Piece, other_attacker: Piece)
    requires
        piece_kind(victim) < piece_kind(other_victim) < 5,
    ensures
        mvv_lva(victim, attacker) < mvv_lva(other_victim, other_attacker),
        piece_kind(attacker) < piece_kind(other_attacker) ==> mvv_lva(victim, other_attacker) < mvv_lva(
            victim,
            attacker,
        ),
        mvv_lva(victim, attacker) > 0,
{
    lemma_piece_index(victim, 0);
    lemma_piece_index(other_victim, 0);
    lemma_piece_index(attacker, 0);
    lemma_piece_index(other_attacker, 0);
}

/// Index of the first move with the highest guess among `from..to`.
pub open spec fn highest_guess_index(guesses: Seq<MoveGuess>, from: int, to: int) -> int
    decreases to - from,
{
    if to <= from + 1 {
        from
    } else {
        let highest = highest_guess_index(guesses, from, to - 1);
        if guesses[to - 1].spec_guess() > guesses[highest].spec_guess() {
            to - 1
        } else {
            highest
        }
    }
}

/// The first highest guess is in range and at least every guess in range.
proof fn lemma_highest_guess_index(guesses: Seq<MoveGuess>, from: int, to: int)
    requires
        from < to,
    ensures
        from <= highest_guess_index(guesses, from, to) < to,
        forall|j: int| from <= j < to ==> guesses[highest_guess_index(guesses, from, to)].spec_guess()
            >= #[trigger] guesses[j].spec_guess(),
    decreases to - from,
{
    if to > from + 1 {
        lemma_highest_guess_index(guesses, from, to - 1);
    }
}

/// The guesses after one call of `put_highest_guessed_move` at `index`.
pub open spec fn selection_step(guesses: Seq<MoveGuess>, index: int, count: int) -> Seq<MoveGuess> {
    let highest = highest_guess_index(guesses, index, count);
    guesses.update(index, guesses[highest]).update(highest, guesses[index])
}

/// The guesses after calls of `put_highest_guessed_move` at 0, 1, ...,
/// `steps - 1`.
pub open spec fn selected(guesses: Seq<MoveGuess>, count: int, steps: nat) -> Seq<MoveGuess>
    decreases steps,
{
    if steps == 0 {
        guesses
    } else {
        selection_step(selected(guesses, count, (steps - 1) as nat), steps - 1, count)
    }
}

/// Calling `put_highest_guessed_move` at 0, 1, 2, ... hands out the guesses
/// in order from highest to lowest: after `steps` calls, each guess handed
/// out stays where it was put, none is lower than a guess still to come,
/// the guesses are the same ones rearranged, and those from `count` on are
/// untouched.
pub proof fn lemma_selection_sorts(guesses: Seq<MoveGuess>, count: int, steps: nat)
    requires
        0 <= count <= guesses.len(),
        steps <= count,
    ensures
        selected(guesses, count, steps).len() == guesses.len(),
        selected(guesses, count, steps).to_multiset() == guesses.to_multiset(),
        forall|j: int| count <= j < guesses.len() ==> #[trigger] selected(guesses, count, steps)[j] == guesses[j],
        forall|i: int| 0 <= i < steps ==> #[trigger] selected(guesses, count, steps)[i] == selected(
            guesses,
            count,
            (i + 1) as nat,
        )[i],
        forall|i: int, j: int|
            0 <= i < steps && i < j < count ==> (#[trigger] selected(guesses, count, steps)[i]).spec_guess() >= (
            #[trigger] selected(guesses, count, steps)[j]).spec_guess(),
    decreases steps,
{
    if steps > 0 {
        let k = steps - 1;
        lemma_selection_sorts(guesses, count, k as nat);
        let before = selected(guesses, count, k as nat);
        let after = selected(guesses, count, steps);
        let highest = highest_guess_index(before, k, count);
        lemma_highest_guess_index(before, k, count);
        assert(after == selection_step(before, k, count));
        let middle = before.update(k, before[highest]);
        assert(after.to_multiset() == before.to_multiset()) by {
            broadcast use vstd::seq_lib::group_to_multiset_ensures;

            assert(middle.to_multiset() =~= before.to_multiset().insert(before[highest]).remove(before[k]));
            assert(after.to_multiset() =~= middle.to_multiset().insert(before[k]).remove(middle[highest]));
            if highest == k {
                assert(middle =~= before);
                assert(after =~= before);
            } else {
                assert(middle[highest] == before[highest]);
            }
            assert(after.to_multiset() =~= before.to_multiset());
        }
        assert forall|i: int| 0 <= i < steps implies #[trigger] after[i] == selected(guesses, count, (i + 1) as nat)[i] by {
            if i < k {
                assert(after[i] == before[i]);
            }
        }
        assert forall|i: int, j: int| 0 <= i < steps && i < j < count implies (#[trigger] after[i]).spec_guess() >= (
        #[trigger] after[j]).spec_guess() by {
            let source = if j == highest {
                k
            } else if j == k {
                highest
            } else {
                j
            };
            assert(after[j] == before[source]);
            if i < k {
                assert(after[i] == before[i]);
                assert(before[i].spec_guess() >= before[source].spec_guess());
            } else {
                assert(after[i] == before[highest]);
                assert(before[highest].spec_guess() >= before[source].spec_guess());
            }
        }
        assert forall|j: int| count <= j < guesses.len() implies #[trigger] after[j] == guesses[j] by {
            assert(after[j] == before[j]);
        }
    }
}

/// Orders moves by their guessed worth.
pub struct MoveOrderer;

impl MoveOrderer {
    /// The guessed worth of a move (see `guessed_move_value`).
    fn guess_move_value(search: &Search, move_data: Move, ply_from_root: Ply) -> (guess: MoveGuessNum)
        requires
            search.wf(),
            move_data.is_valid(),
            move_data.flag == Flag::Normal ==> search.spec_board().spec_friendly_piece_at(
                move_data.from.0 as int,
            ) is Some,
        ensures
            guess == guessed_move_value(*search, move_data, ply_from_root as int),
    {
        proof {
            search.lemma_wf();
            search.spec_history().lemma_wf();
        }
        let moving_from = move_data.from;
        let moving_to = move_data.to;
        let white_to_move = search.board.white_to_move;
        let quiet = (if white_to_move {
            4096usize
        } else {
            0
        }) + moving_from.usize() + moving_to.usize() * 64;
        match move_data.flag {
            Flag::EnPassant | Flag::Castle | Flag::PawnTwoUp => {
                return search.history.quiet_history[quiet] as MoveGuessNum;
            },
            Flag::BishopPromotion => return BISHOP_PROMOTION_BONUS,
            Flag::KnightPromotion => return KNIGHT_PROMOTION_BONUS,
            Flag::RookPromotion => return ROOK_PROMOTION_BONUS,
            Flag::QueenPromotion => return QUEEN_PROMOTION_BONUS,
            Flag::Normal => {},
        }
        let moving_piece = search.board.friendly_piece_at(moving_from).unwrap();
        proof {
            lemma_piece_index(moving_piece, 0);
        }
        let mut score: MoveGuessNum = 0;
        if let Some(capturing) = search.board.enemy_piece_at(moving_to) {
            proof {
                lemma_piece_index(capturing, 0);
            }
            score = score + CAPTURE_BONUS;
            score = score + CAPTURING_SCORE[capturing.index()];
            let captured_kind = capturing.index() % 6;
            score = score + search.history.capture_history[moving_piece.index() * 384 + moving_to.usize() * 6
                + captured_kind] as MoveGuessNum;
        } else {
            score = score + search.history.quiet_history[quiet] as MoveGuessNum;
            if ply_from_root != 0 {
                let previous = search.history.continuation_indices[(ply_from_root - 1) as usize];
                proof {
                    lemma_piece_index(previous.0, 0);
                }
                score = score + search.history.continuation_history.get(
                    previous.0.index(),
                    previous.1.usize(),
                    moving_piece.index() % 6,
                    moving_to.usize(),
                ) as MoveGuessNum;
            }
        }
        score
    }

    /// Swaps the move with the first highest guess among
    /// `move_guesses[unsorted_index..move_count]` into `unsorted_index`, and
    /// returns it.
    pub fn put_highest_guessed_move(
        move_guesses: &mut Vec<MoveGuess>,
        unsorted_index: usize,
        move_count: usize,
    ) -> (highest: MoveGuess)
        requires
            unsorted_index < move_count <= old(move_guesses)@.len(),
        ensures
            highest == old(move_guesses)@[highest_guess_index(
                old(move_guesses)@,
                unsorted_index as int,
                move_count as int,
            )],
            final(move_guesses)@ == old(move_guesses)@.update(unsorted_index as int, highest).update(
                highest_guess_index(old(move_guesses)@, unsorted_index as int, move_count as int),
                old(move_guesses)@[unsorted_index as int],
            ),
            final(move_guesses)@[unsorted_index as int] == highest,
            final(move_guesses)@ == selection_step(old(move_guesses)@, unsorted_index as int, move_count as int),
            forall|j: int|
                unsorted_index <= j < move_count ==> highest.spec_guess() >= #[trigger] final(move_guesses)@[j].spec_guess(),
    {
        let ghost initial = move_guesses@;
        let mut index_of_highest_move = unsorted_index;
        let mut highest_guess = move_guesses[unsorted_index].guess;
        let mut index = unsorted_index + 1;
        while index < move_count
            invariant
                move_guesses@ == initial,
                unsorted_index < index <= move_count <= initial.len(),
                index_of_highest_move == highest_guess_index(initial, unsorted_index as int, index as int),
                highest_guess == initial[index_of_highest_move as int].spec_guess(),
            decreases move_count - index,
        {
            let guess = move_guesses[index].guess;
            if guess > highest_guess {
                highest_guess = guess;
                index_of_highest_move = index;
            }
            index = index + 1;
        }
        proof {
            lemma_highest_guess_index(initial, unsorted_index as int, move_count as int);
        }
        let highest = move_guesses[index_of_highest_move];
        if index_of_highest_move != unsorted_index {
            let first = move_guesses[unsorted_index];
            move_guesses.set(unsorted_index, highest);
            move_guesses.set(index_of_highest_move, first);
        }
        proof {
            assert(move_guesses@ =~= initial.update(unsorted_index as int, highest).update(
                index_of_highest_move as int,
                initial[unsorted_index as int],
            ));
        }
        highest
    }

    /// The guessed worth of a capture (see `guessed_capture_value`).
    fn guess_capture_value(search: &Search, move_data: Move) -> (guess: MoveGuessNum)
        requires
            search.wf(),
            move_data.is_valid(),
            move_data.flag != Flag::Castle,
            move_data.flag != Flag::PawnTwoUp,
            move_data.flag == Flag::Normal || move_data.flag == Flag::KnightPromotion || move_data.flag
                == Flag::QueenPromotion ==> {
                &&& search.spec_board().spec_enemy_piece_at(move_data.to.0 as int) is Some
                &&& search.spec_board().spec_friendly_piece_at(move_data.from.0 as int) is Some
            },
        ensures
            guess == guessed_capture_value(*search, move_data),
    {
        let bonus: MoveGuessNum = match move_data.flag {
            Flag::EnPassant => return 0,
            Flag::BishopPromotion => return -1,
            Flag::RookPromotion => return -1,
            Flag::KnightPromotion => 1300,
            Flag::QueenPromotion => 1900,
            _ => 0,
        };
        let capturing = search.board.enemy_piece_at(move_data.to).unwrap();
        let moving_piece = search.board.friendly_piece_at(move_data.from).unwrap();
        proof {
            lemma_piece_index(capturing, 0);
            lemma_piece_index(moving_piece, 0);
        }
        let victim = capturing.index() % 6;
        let attacker = moving_piece.index() % 6;
        let victim_and_attacker: MoveGuessNum = if victim == 5 {
            0
        } else {
            ((victim + 1) * 10 + 5 - attacker) as MoveGuessNum
        };
        bonus + victim_and_attacker
    }

    /// Every legal capture of the search's position with its guessed worth,
    /// in generation order, and how many there are.
    pub fn get_move_guesses_captures_only(search: &Search, move_generator: &MoveGenerator) -> (result: (
        Vec<MoveGuess>,
        usize,
    ))
        requires
            search.wf(),
            move_generator.spec_board() == search.spec_board(),
        ensures
            result.1 == result.0@.len(),
            result.0@.len() == legal_moves(search.spec_board()@, true).len(),
            forall|i: int|
                0 <= i < result.0@.len() ==> (#[trigger] result.0@[i]).spec_move_data().0 == encode(
                    legal_moves(search.spec_board()@, true)[i],
                ) && result.0@[i].spec_guess() == guessed_capture_value(
                    *search,
                    legal_moves(search.spec_board()@, true)[i],
                ),
    {
        proof {
            search.lemma_wf();
            lemma_moves_upto_listed(search.spec_board()@, true, 32768);
        }
        let moves = move_generator.generate(true);
        let mut move_guesses: Vec<MoveGuess> = Vec::new();
        let mut index: usize = 0;
        while index < moves.len()
            invariant
                search.wf(),
                search.spec_board().wf(),
                moves@ == legal_moves(search.spec_board()@, true),
                forall|j: int| 0 <= j < moves@.len() ==> listed(search.spec_board()@, #[trigger] moves@[j], true),
                index <= moves.len(),
                move_guesses@.len() == index,
                forall|i: int|
                    0 <= i < index ==> (#[trigger] move_guesses@[i]).spec_move_data().0 == encode(moves@[i])
                        && move_guesses@[i].spec_guess() == guessed_capture_value(*search, moves@[i]),
            decreases moves.len() - index,
        {
            let move_data = moves[index];
            proof {
                let board = search.spec_board();
                assert(listed(board@, move_data, true));
                assert(is_capture(board@, move_data));
                lemma_pseudo_legal_can_make(board@, move_data);
                lemma_moves_own_piece(board, move_data);
                board.lemma_piece_at(move_data.to.0 as int);
            }
            let encoded = EncodedMove::new(move_data);
            let guess = Self::guess_capture_value(search, move_data);
            move_guesses.push(MoveGuess { move_data: encoded, guess });
            index = index + 1;
        }
        (move_guesses, index)
    }

    /// Every legal move of the search's position with its guessed worth, in
    /// generation order, and how many there are: the hash move first of
    /// all, then the killer move, then as `guessed_move_value` says.
    pub fn get_move_guesses(
        search: &Search,
        move_generator: &MoveGenerator,
        hash_move: EncodedMove,
        killer_move: EncodedMove,
        ply_from_root: Ply,
    ) -> (result: (Vec<MoveGuess>, usize))
        requires
            search.wf(),
            move_generator.spec_board() == search.spec_board(),
        ensures
            result.1 == result.0@.len(),
            result.0@.len() == legal_moves(search.spec_board()@, false).len(),
            forall|i: int|
                0 <= i < result.0@.len() ==> {
                    let m = legal_moves(search.spec_board()@, false)[i];
                    &&& (#[trigger] result.0@[i]).spec_move_data().0 == encode(m)
                    &&& result.0@[i].spec_guess() == if encode(m) == hash_move.0 {
                        HASH_MOVE_BONUS as int
                    } else if encode(m) == killer_move.0 {
                        KILLER_MOVE_BONUS as int
                    } else {
                        guessed_move_value(*search, m, ply_from_root as int)
                    }
                },
    {
        proof {
            search.lemma_wf();
            lemma_moves_upto_legal(search.spec_board()@, false, 32768);
        }
        let moves = move_generator.generate(false);
        let mut move_guesses: Vec<MoveGuess> = Vec::new();
        let mut index: usize = 0;
        while index < moves.len()
            invariant
                search.wf(),
                search.spec_board().wf(),
                moves@ == legal_moves(search.spec_board()@, false),
                forall|j: int| 0 <= j < moves@.len() ==> legal(search.spec_board()@, #[trigger] moves@[j]),
                index <= moves.len(),
                move_guesses@.len() == index,
                forall|i: int|
                    0 <= i < index ==> {
                        &&& (#[trigger] move_guesses@[i]).spec_move_data().0 == encode(moves@[i])
                        &&& move_guesses@[i].spec_guess() == if encode(moves@[i]) == hash_move.0 {
                            HASH_MOVE_BONUS as int
                        } else if encode(moves@[i]) == killer_move.0 {
                            KILLER_MOVE_BONUS as int
                        } else {
                            guessed_move_value(*search, moves@[i], ply_from_root as int)
                        }
                    },
            decreases moves.len() - index,
        {
            let move_data = moves[index];
            proof {
                let board = search.spec_board();
                assert(legal(board@, move_data));
                lemma_pseudo_legal_can_make(board@, move_data);
                lemma_moves_own_piece(board, move_data);
            }
            let encoded = EncodedMove::new(move_data);
            let guess = if encoded == hash_move {
                HASH_MOVE_BONUS
            } else if encoded == killer_move {
                KILLER_MOVE_BONUS
            } else {
                Self::guess_move_value(search, move_data, ply_from_root)
            };
            move_guesses.push(MoveGuess { move_data: encoded, guess });
            index = index + 1;
        }
        (move_guesses, index)
    }
}

} // verus!

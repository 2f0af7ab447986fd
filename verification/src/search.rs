//! Finds the best outcome in a chess position.

pub mod move_ordering;

use vstd::prelude::*;
use crate::square::{Square, flipped_index};
use crate::piece::{Piece, piece_of, lemma_piece_index};
use crate::board::{Board, GameState};
use crate::move_data::{Flag, Move, promotion_piece};
use crate::maker::{can_make, made, make_move_runs, can_unmake, unmade, unmake_move_runs, lemma_unmake_inverts_make, castle_rook_from, castle_rook_to, en_passant_capture, en_passant_index};
use crate::evaluation::{Eval, Score, middle_game_sum, end_game_sum, evaluation, lemma_sum_bounds, lemma_sum_update, lemma_blended_bounds, total_phase};
use crate::eval_data::PHASE_WEIGHTS;
use crate::evaluation::{middle_game_value, end_game_value};
use crate::pv::{Pv, Ply};
use crate::search_params::{Tunable, spec_default_tunables};
use crate::zobrist::{Zobrist, zobrist_key};
use crate::repetition_table::RepetitionTable;
use crate::maker::{null_made, lemma_can_make_runs, lemma_can_unmake_runs};
use crate::board::BoardView;
use crate::rules::{legal, legal_moves, in_check};
use crate::move_generator::{MoveGenerator, lemma_pseudo_legal_can_make};
use crate::perft::{lemma_moves_upto_legal, capped};
use crate::time_manager::TimeManager;
use crate::encoded_move::{EncodedMove, encode};
use crate::pv::PLIES;
use crate::search::move_ordering::{ContinuationHistory, CONTINUATION_HISTORY_LEN};

verus! {

/// Score of having checkmated the opponent.
pub const IMMEDIATE_CHECKMATE_SCORE: Score = 70000;

/// Lowest score that means a forced checkmate (`IMMEDIATE_CHECKMATE_SCORE` minus the most plies).
pub const CHECKMATE_SCORE: Score = 69745;

/// Information used in search about the position: the sums of the piece
/// square values, kept up to date as moves are made.
#[derive(Clone, Copy, PartialEq, Eq, Structural, Debug)]
pub struct SearchState {
    pub total_middle_game_score: Score,
    pub total_end_game_score: Score,
}

/// A combination of `GameState` and `SearchState`: what unmaking a move needs.
#[derive(Clone, Copy, PartialEq, Eq, Structural, Debug)]
pub struct ExtendedState {
    pub game_state: GameState,
    pub search_state: SearchState,
}

/// Bytes taken by one transposition table entry.
pub const TRANSPOSITION_ENTRY_BYTES: usize = 16;

/// Number of transposition table entries of `TRANSPOSITION_ENTRY_BYTES`
/// bytes that fit in the given number of megabytes.
pub fn megabytes_to_capacity(megabytes: usize) -> (capacity: usize)
    requires
        megabytes * 65536 <= usize::MAX,
    ensures
        capacity == megabytes * 65536,
{
    megabytes * 65536
}

/// The search state that belongs to a board.
pub open spec fn state_of(board: Board) -> SearchState {
    SearchState {
        total_middle_game_score: middle_game_sum(board@.squares, 64) as i32,
        total_end_game_score: end_game_sum(board@.squares, 64) as i32,
    }
}

/// Search information at a depth.
pub struct DepthSearchInfo {
    /// Depth searched at.
    pub depth: Ply,
    /// Highest number of moves looked ahead.
    pub highest_depth: Ply,
    /// The best line of moves and its evaluation.
    pub best: (Vec<EncodedMove>, Score),
    /// How many times `make_move` was called in search.
    pub node_count: u64,
    pub hash_full: u16,
}

/// Looks for the best outcome in a position.
pub struct Search {
    board: Board,
    search_state: SearchState,
    pub pv: Pv,
    pub highest_depth: Ply,
    node_count: u64,
    tunable: Tunable,
    repetition_table: RepetitionTable,
    history: MoveHistory,
}

/// What the search has learnt about moves, to order them.
pub struct MoveHistory {
    /// How good quiet moves have been: indexed by side (Black 0, White 1),
    /// then by start square plus 64 times target square.
    quiet_history: Vec<i16>,
    /// How good captures have been: indexed by moving piece, target square
    /// and kind of the captured piece.
    capture_history: Vec<i16>,
    /// The piece moved and its target square at each ply of the line searched.
    continuation_indices: Vec<(Piece, Square)>,
    continuation_history: ContinuationHistory,
}

impl MoveHistory {
    /// The tables have their full sizes and name squares on the board.
    pub closed spec fn wf(&self) -> bool {
        &&& self.quiet_history@.len() == QUIET_HISTORY_LEN
        &&& self.capture_history@.len() == CAPTURE_HISTORY_LEN
        &&& self.continuation_indices@.len() == PLIES
        &&& forall|j: int| 0 <= j < PLIES ==> (#[trigger] self.continuation_indices@[j]).1.is_valid()
        &&& self.continuation_history.wf()
    }

    /// The quiet move history.
    pub closed spec fn quiet(&self) -> Seq<i16> {
        self.quiet_history@
    }

    /// The capture history.
    pub closed spec fn captures(&self) -> Seq<i16> {
        self.capture_history@
    }

    /// The piece moved and its target square at each ply.
    pub closed spec fn continuation_indices(&self) -> Seq<(Piece, Square)> {
        self.continuation_indices@
    }

    /// The continuation history.
    pub closed spec fn continuation(&self) -> ContinuationHistory {
        self.continuation_history
    }

    /// What well-formed tables hold.
    pub proof fn lemma_wf(&self)
        requires
            self.wf(),
        ensures
            self.quiet().len() == QUIET_HISTORY_LEN,
            self.captures().len() == CAPTURE_HISTORY_LEN,
            self.continuation_indices().len() == PLIES,
            forall|j: int| 0 <= j < PLIES ==> (#[trigger] self.continuation_indices()[j]).1.is_valid(),
            self.continuation().wf(),
    {
    }

    /// Empty tables.
    pub fn new() -> (history: MoveHistory)
        ensures
            history.wf(),
            history.is_empty(),
    {
        let mut continuation_indices: Vec<(Piece, Square)> = Vec::new();
        let mut i: usize = 0;
        while i < PLIES
            invariant
                i <= PLIES,
                continuation_indices@.len() == i,
                forall|j: int| 0 <= j < i ==> (#[trigger] continuation_indices@[j]).1.is_valid(),
            decreases PLIES - i,
        {
            continuation_indices.push((Piece::WhitePawn, Square(0)));
            i = i + 1;
        }
        let history = MoveHistory {
            quiet_history: vec![0i16; QUIET_HISTORY_LEN],
            capture_history: vec![0i16; CAPTURE_HISTORY_LEN],
            continuation_indices,
            continuation_history: ContinuationHistory::new(),
        };
        proof {
            assert(history.quiet() =~= Seq::new(QUIET_HISTORY_LEN as nat, |j: int| 0i16));
            assert(history.captures() =~= Seq::new(CAPTURE_HISTORY_LEN as nat, |j: int| 0i16));
        }
        history
    }

    /// Every entry of every table is zero.
    pub open spec fn is_empty(&self) -> bool {
        &&& forall|j: int| 0 <= j < QUIET_HISTORY_LEN ==> #[trigger] self.quiet()[j] == 0
        &&& forall|j: int| 0 <= j < CAPTURE_HISTORY_LEN ==> #[trigger] self.captures()[j] == 0
        &&& forall|j: int| 0 <= j < CONTINUATION_HISTORY_LEN ==> #[trigger] self.continuation()@[j] == 0
    }
}

/// Number of entries of the quiet move history.
pub const QUIET_HISTORY_LEN: usize = 8192;

/// Number of entries of the capture history.
pub const CAPTURE_HISTORY_LEN: usize = 4608;

impl Search {
    /// The board is well formed, the evaluation sums match it and the
    /// principal variation table has its full size.
    pub closed spec fn wf(&self) -> bool {
        &&& self.spec_board().wf()
        &&& self.spec_search_state() == state_of(self.spec_board())
        &&& self.pv.wf()
        &&& self.history.wf()
    }

    /// The move histories.
    pub closed spec fn spec_history(&self) -> MoveHistory {
        self.history
    }

    /// What a well-formed search holds.
    pub proof fn lemma_wf(&self)
        requires
            self.wf(),
        ensures
            self.spec_board().wf(),
            self.spec_search_state() == state_of(self.spec_board()),
            self.spec_pv().wf(),
            self.spec_history().wf(),
    {
    }

    /// The current board.
    pub closed spec fn spec_board(&self) -> Board {
        self.board
    }

    /// The evaluation sums.
    pub closed spec fn spec_search_state(&self) -> SearchState {
        self.search_state
    }

    /// Number of moves made by the search.
    pub closed spec fn spec_node_count(&self) -> u64 {
        self.node_count
    }

    /// The principal variation.
    pub closed spec fn spec_pv(&self) -> Pv {
        self.pv
    }

    /// Deepest ply reached.
    pub closed spec fn spec_highest_depth(&self) -> Ply {
        self.highest_depth
    }

    /// The search parameters.
    pub closed spec fn spec_tunable(&self) -> Tunable {
        self.tunable
    }

    /// Keys of the positions before the current one, oldest first.
    pub closed spec fn spec_repetitions(&self) -> Seq<Zobrist> {
        self.repetition_table@
    }

    /// A new search of the board.
    pub fn new(board: Board, transposition_capacity: usize) -> (search: Search)
        ensures
            search.spec_board() == board,
            search.spec_search_state() == state_of(board),
            search.spec_pv().wf(),
            forall|r: int, c: int| 0 <= r < PLIES && 0 <= c < PLIES ==> (#[trigger] search.spec_pv().entry(r, c)).0 == 0,
            forall|r: int| 0 <= r < PLIES ==> #[trigger] search.spec_pv().length(r) == 0,
            search.spec_history().wf(),
            search.spec_history().is_empty(),
            board.wf() ==> search.wf(),
            search.spec_highest_depth() == 0,
            search.spec_node_count() == 0,
            search.spec_tunable() == spec_default_tunables(),
            search.spec_repetitions() == Seq::<Zobrist>::empty(),
    {
        let (total_middle_game_score, total_end_game_score) = Eval::raw_evaluate(&board);
        Search {
            board,
            search_state: SearchState { total_middle_game_score, total_end_game_score },
            pv: Pv::new(),
            highest_depth: 0,
            node_count: 0,
            tunable: crate::search_params::default_tunables(),
            repetition_table: RepetitionTable::new(),
            history: MoveHistory::new(),
        }
    }

    /// Sets an empty transposition table with the new capacity (this search
    /// keeps no transposition table, so nothing changes).
    pub fn resize_transposition_table(&mut self, transposition_capacity: usize)
        ensures
            *final(self) == *old(self),
    {
    }

    /// The current board.
    pub fn board(&self) -> (board: &Board)
        ensures
            *board == self.spec_board(),
    {
        &self.board
    }

    /// Starts on a new position.
    pub fn new_board(&mut self, board: Board)
        requires
            old(self).spec_pv().wf(),
            old(self).spec_history().wf(),
        ensures
            final(self).spec_board() == board,
            final(self).spec_search_state() == state_of(board),
            board.wf() ==> final(self).wf(),
            final(self).spec_pv() == old(self).spec_pv(),
            final(self).spec_highest_depth() == old(self).spec_highest_depth(),
            final(self).spec_node_count() == old(self).spec_node_count(),
            final(self).spec_tunable() == old(self).spec_tunable(),
            final(self).spec_history() == old(self).spec_history(),
            final(self).spec_repetitions() == Seq::<Zobrist>::empty(),
    {
        self.repetition_table.clear();
        self.board = board;
        let (total_middle_game_score, total_end_game_score) = Eval::raw_evaluate(&self.board);
        self.search_state.total_middle_game_score = total_middle_game_score;
        self.search_state.total_end_game_score = total_end_game_score;
    }

    /// Prepares another search: resets the node count and the deepest ply reached.
    pub fn clear_for_new_search(&mut self)
        ensures
            final(self).spec_node_count() == 0,
            final(self).spec_highest_depth() == 0,
            final(self).spec_board() == old(self).spec_board(),
            final(self).spec_search_state() == old(self).spec_search_state(),
            final(self).spec_pv() == old(self).spec_pv(),
            final(self).spec_tunable() == old(self).spec_tunable(),
            final(self).spec_history() == old(self).spec_history(),
            final(self).spec_repetitions() == old(self).spec_repetitions(),
            old(self).wf() ==> final(self).wf(),
    {
        self.node_count = 0;
        self.highest_depth = 0;
    }

    /// Prepares a new match (this search keeps no cache between games, so
    /// nothing changes).
    pub fn clear_cache_for_new_game(&mut self)
        ensures
            *final(self) == *old(self),
    {
    }

    /// Takes a piece's values out of the evaluation sums.
    fn evaluation_remove_piece(&mut self, piece: Piece, square: Square)
        requires
            square.is_valid(),
            -0x100_0000 <= old(self).search_state.total_middle_game_score <= 0x100_0000,
            -0x100_0000 <= old(self).search_state.total_end_game_score <= 0x100_0000,
        ensures
            final(self).search_state.total_middle_game_score == old(self).search_state.total_middle_game_score
                - crate::evaluation::middle_game_value(Some(piece), square.0 as int),
            final(self).search_state.total_end_game_score == old(self).search_state.total_end_game_score
                - crate::evaluation::end_game_value(Some(piece), square.0 as int),
            final(self).board == old(self).board,
            final(self).spec_pv() == old(self).spec_pv(),
            final(self).spec_highest_depth() == old(self).spec_highest_depth(),
            final(self).node_count == old(self).node_count,
            final(self).tunable == old(self).tunable,
            final(self).repetition_table@ == old(self).repetition_table@,
            final(self).history == old(self).history,
    {
        let (middle_game_value, end_game_value) = Eval::square_values(piece, square);
        self.search_state.total_middle_game_score = self.search_state.total_middle_game_score
            - middle_game_value;
        self.search_state.total_end_game_score = self.search_state.total_end_game_score
            - end_game_value;
    }

    /// Adds a piece's values to the evaluation sums.
    fn evaluation_add_piece(&mut self, piece: Piece, square: Square)
        requires
            square.is_valid(),
            -0x100_0000 <= old(self).search_state.total_middle_game_score <= 0x100_0000,
            -0x100_0000 <= old(self).search_state.total_end_game_score <= 0x100_0000,
        ensures
            final(self).search_state.total_middle_game_score == old(self).search_state.total_middle_game_score
                + crate::evaluation::middle_game_value(Some(piece), square.0 as int),
            final(self).search_state.total_end_game_score == old(self).search_state.total_end_game_score
                + crate::evaluation::end_game_value(Some(piece), square.0 as int),
            final(self).board == old(self).board,
            final(self).spec_pv() == old(self).spec_pv(),
            final(self).spec_highest_depth() == old(self).spec_highest_depth(),
            final(self).node_count == old(self).node_count,
            final(self).tunable == old(self).tunable,
            final(self).repetition_table@ == old(self).repetition_table@,
            final(self).history == old(self).history,
    {
        let (middle_game_value, end_game_value) = Eval::square_values(piece, square);
        self.search_state.total_middle_game_score = self.search_state.total_middle_game_score
            + middle_game_value;
        self.search_state.total_end_game_score = self.search_state.total_end_game_score
            + end_game_value;
    }

    /// Evaluation of the current board for the side to move, from the sums
    /// kept up to date by `make_move`.
    pub fn static_evaluate(&self) -> (score: Score)
        requires
            self.wf(),
        ensures
            score == evaluation(self.spec_board()@),
    {
        let phases = PHASE_WEIGHTS;
        let total_phase = phases[0] * 16 + phases[1] * 4 + phases[2] * 4 + phases[3] * 4 + phases[4]
            * 2;
        let phase = Eval::get_phase(&self.board, &phases);
        proof {
            lemma_sum_bounds(self.board@.squares, PHASE_WEIGHTS@, 64);
            lemma_blended_bounds(self.board@.squares);
        }
        let static_eval = Eval::calculate_score(
            phase,
            total_phase,
            self.search_state.total_middle_game_score,
            self.search_state.total_end_game_score,
        );
        if self.board.white_to_move {
            static_eval
        } else {
            -static_eval
        }
    }

    /// Makes a move and updates the evaluation sums; returns what
    /// `unmake_move` needs to take it back.
    pub fn make_move(&mut self, move_data: &Move) -> (old_state: ExtendedState)
        requires
            old(self).wf(),
            make_move_runs(old(self).spec_board(), *move_data),
            old(self).spec_board().spec_friendly_piece_at(move_data.from.0 as int) is Some,
        ensures
            old_state.game_state == old(self).spec_board().game_state,
            old_state.search_state == old(self).spec_search_state(),
            final(self).spec_pv() == old(self).spec_pv(),
            final(self).spec_highest_depth() == old(self).spec_highest_depth(),
            final(self).spec_node_count() == old(self).spec_node_count(),
            final(self).spec_tunable() == old(self).spec_tunable(),
            final(self).spec_history() == old(self).spec_history(),
            final(self).spec_board().white_to_move == !old(self).spec_board().white_to_move,
            final(self).spec_repetitions() == old(self).spec_repetitions(),
            can_make(old(self).spec_board()@, *move_data) ==> final(self).wf() && final(self).spec_board()@
                == made(old(self).spec_board()@, *move_data),
            can_make(old(self).spec_board()@, *move_data) ==> final(self).spec_search_state() == state_of(
                final(self).spec_board(),
            ),
    {
        let search_state = self.search_state;
        let ghost before = self.board;
        self.update_evaluation(move_data);
        let game_state = self.board.make_move(move_data);
        ExtendedState { game_state, search_state }
    }

    /// Updates the evaluation sums for a move about to be made.
    #[verifier::rlimit(40)]
    fn update_evaluation(&mut self, move_data: &Move)
        requires
            old(self).wf(),
            make_move_runs(old(self).board, *move_data),
            old(self).board.spec_friendly_piece_at(move_data.from.0 as int) is Some,
        ensures
            final(self).board == old(self).board,
            final(self).pv == old(self).pv,
            final(self).highest_depth == old(self).highest_depth,
            final(self).node_count == old(self).node_count,
            final(self).tunable == old(self).tunable,
            final(self).repetition_table@ == old(self).repetition_table@,
            final(self).history == old(self).history,
            can_make(old(self).board@, *move_data) ==> final(self).search_state.total_middle_game_score
                == middle_game_sum(made(old(self).board@, *move_data).squares, 64)
                && final(self).search_state.total_end_game_score == end_game_sum(
                made(old(self).board@, *move_data).squares,
                64,
            ),
    {
        let ghost before = *self;
        let from = move_data.from;
        let to = move_data.to;
        let flag = move_data.flag;
        let white_to_move = self.board.white_to_move;
        proof {
            lemma_sum_bounds(self.board@.squares, PHASE_WEIGHTS@, 64);
        }
        let piece = self.board.friendly_piece_at(from).unwrap();
        self.evaluation_remove_piece(piece, from);

        let promotion_piece = flag.get_promotion_piece(white_to_move);
        if let Some(promotion_piece) = promotion_piece {
            self.evaluation_add_piece(promotion_piece, to);
        } else {
            self.evaluation_add_piece(piece, to);
        }
        let ghost moved = *self;

        match flag {
            Flag::Castle => {
                let is_king_side = to.file() == 6;
                let rook_to_offset: i8 = if is_king_side { -1 } else { 1 };
                let rook_from_offset: i8 = if is_king_side { 1 } else { -2 };
                let rook = if white_to_move {
                    Piece::WhiteRook
                } else {
                    Piece::BlackRook
                };
                let rook_from = to.offset(rook_from_offset);
                let rook_to = to.offset(rook_to_offset);
                self.evaluation_remove_piece(rook, rook_from);
                self.evaluation_add_piece(rook, rook_to);
                proof {
                    if can_make(before.board@, *move_data) {
                        lemma_sums_after_move(before.board, *move_data);
                        before.board.lemma_piece_at(from.0 as int);
                        before.board.lemma_piece_at(to.0 as int);
                        before.board.lemma_piece_at(rook_from.0 as int);
                    }
                }
            },
            Flag::EnPassant => {
                let capture_position = self.board.game_state.en_passant_square.unwrap().down(
                    if white_to_move { 1 } else { -1 },
                );
                let captured = if white_to_move {
                    Piece::BlackPawn
                } else {
                    Piece::WhitePawn
                };
                self.evaluation_remove_piece(captured, capture_position);
                proof {
                    if can_make(before.board@, *move_data) {
                        lemma_sums_after_move(before.board, *move_data);
                        before.board.lemma_piece_at(from.0 as int);
                        before.board.lemma_piece_at(to.0 as int);
                    }
                }
            },
            _ => {
                let captured = self.board.enemy_piece_at(to);
                if let Some(captured) = captured {
                    self.evaluation_remove_piece(captured, to);
                }
                proof {
                    if can_make(before.board@, *move_data) {
                        lemma_sums_after_move(before.board, *move_data);
                        before.board.lemma_piece_at(from.0 as int);
                        before.board.lemma_piece_at(to.0 as int);
                    }
                }
            },
        }
    }

    /// Takes back a move made with `make_move`, restoring the evaluation sums.
    pub fn unmake_move(&mut self, move_data: &Move, old_state: &ExtendedState)
        requires
            unmake_move_runs(old(self).spec_board(), *move_data, old_state.game_state),
        ensures
            final(self).spec_search_state() == old_state.search_state,
            final(self).spec_board().game_state == old_state.game_state,
            final(self).spec_board().white_to_move == !old(self).spec_board().white_to_move,
            old(self).spec_board().wf() && can_unmake(old(self).spec_board()@, *move_data, old_state.game_state)
                ==> final(self).spec_board().wf() && final(self).spec_board()@ == unmade(
                old(self).spec_board()@,
                *move_data,
                old_state.game_state,
            ),
            final(self).spec_pv() == old(self).spec_pv(),
            final(self).spec_highest_depth() == old(self).spec_highest_depth(),
            final(self).spec_node_count() == old(self).spec_node_count(),
            final(self).spec_tunable() == old(self).spec_tunable(),
            final(self).spec_history() == old(self).spec_history(),
            final(self).spec_repetitions() == old(self).spec_repetitions(),
            old(self).spec_board().wf() && can_unmake(old(self).spec_board()@, *move_data, old_state.game_state)
                && old(self).spec_pv().wf() && old(self).spec_history().wf() && old_state.search_state == state_of(
                final(self).spec_board(),
            ) ==> final(self).wf(),
    {
        self.search_state = old_state.search_state;
        self.board.unmake_move(move_data, &old_state.game_state);
    }

    /// The key of the current position.
    pub fn position_zobrist_key(&self) -> (key: Zobrist)
        ensures
            key.0 == zobrist_key(self.spec_board()@),
    {
        Zobrist::of_board(&self.board)
    }

    /// The keys of the positions before the current one.
    pub fn repetition_table(&self) -> (table: &RepetitionTable)
        ensures
            table@ == self.spec_repetitions(),
    {
        &self.repetition_table
    }

    /// Whether the current position repeats an earlier one since the last
    /// irreversible move.
    pub fn is_repetition(&self) -> (repeated: bool)
        ensures
            repeated == crate::repetition_table::spec_contains(
                self.spec_repetitions(),
                Zobrist(zobrist_key(self.spec_board()@)),
                self.spec_board().game_state.half_move_clock as int,
            ),
    {
        self.repetition_table.contains(self.position_zobrist_key(), self.board.game_state.half_move_clock)
    }

    /// Makes a move as `make_move` does, first recording the key of the
    /// position it leaves. (`PREFETCH` would ask for the memory of the next
    /// position to be loaded early; this search holds no such memory.)
    pub fn make_move_repetition<const PREFETCH: bool>(&mut self, move_data: &Move) -> (old_state: ExtendedState)
        requires
            old(self).wf(),
            make_move_runs(old(self).spec_board(), *move_data),
            old(self).spec_board().spec_friendly_piece_at(move_data.from.0 as int) is Some,
        ensures
            old_state.game_state == old(self).spec_board().game_state,
            old_state.search_state == old(self).spec_search_state(),
            final(self).spec_repetitions() == old(self).spec_repetitions().push(
                Zobrist(zobrist_key(old(self).spec_board()@)),
            ),
            final(self).spec_pv() == old(self).spec_pv(),
            final(self).spec_highest_depth() == old(self).spec_highest_depth(),
            final(self).spec_node_count() == old(self).spec_node_count(),
            final(self).spec_tunable() == old(self).spec_tunable(),
            final(self).spec_history() == old(self).spec_history(),
            final(self).spec_board().white_to_move == !old(self).spec_board().white_to_move,
            can_make(old(self).spec_board()@, *move_data) ==> final(self).wf() && final(self).spec_board()@
                == made(old(self).spec_board()@, *move_data),
    {
        let key = self.position_zobrist_key();
        self.repetition_table.push(key);
        self.make_move(move_data)
    }

    /// Takes back a move made with `make_move_repetition`, forgetting the key
    /// it recorded.
    pub fn unmake_move_repetition(&mut self, move_data: &Move, old_state: &ExtendedState)
        requires
            unmake_move_runs(old(self).spec_board(), *move_data, old_state.game_state),
            old(self).spec_repetitions().len() > 0,
        ensures
            final(self).spec_search_state() == old_state.search_state,
            final(self).spec_board().game_state == old_state.game_state,
            final(self).spec_board().white_to_move == !old(self).spec_board().white_to_move,
            old(self).spec_board().wf() && can_unmake(old(self).spec_board()@, *move_data, old_state.game_state)
                ==> final(self).spec_board().wf() && final(self).spec_board()@ == unmade(
                old(self).spec_board()@,
                *move_data,
                old_state.game_state,
            ),
            final(self).spec_repetitions() == old(self).spec_repetitions().drop_last(),
            final(self).spec_pv() == old(self).spec_pv(),
            final(self).spec_highest_depth() == old(self).spec_highest_depth(),
            final(self).spec_node_count() == old(self).spec_node_count(),
            final(self).spec_tunable() == old(self).spec_tunable(),
            final(self).spec_history() == old(self).spec_history(),
            old(self).spec_board().wf() && can_unmake(old(self).spec_board()@, *move_data, old_state.game_state)
                && old(self).spec_pv().wf() && old(self).spec_history().wf() && old_state.search_state == state_of(
                final(self).spec_board(),
            ) ==> final(self).wf(),
    {
        self.unmake_move(move_data, old_state);
        self.repetition_table.pop();
    }

    /// Passes the turn, recording the key of the position it leaves; returns
    /// what `unmake_null_move` needs.
    pub fn make_null_move(&mut self) -> (old_state: ExtendedState)
        ensures
            old_state.game_state == old(self).spec_board().game_state,
            old_state.search_state == old(self).spec_search_state(),
            final(self).spec_board().bit_boards == old(self).spec_board().bit_boards,
            final(self).spec_board().white_to_move == !old(self).spec_board().white_to_move,
            final(self).spec_board().game_state == null_made(old(self).spec_board()@).state,
            final(self).spec_search_state() == old(self).spec_search_state(),
            final(self).spec_repetitions() == old(self).spec_repetitions().push(
                Zobrist(zobrist_key(old(self).spec_board()@)),
            ),
            old(self).wf() ==> final(self).wf() && final(self).spec_board()@ == null_made(
                old(self).spec_board()@,
            ),
            final(self).spec_pv() == old(self).spec_pv(),
            final(self).spec_highest_depth() == old(self).spec_highest_depth(),
            final(self).spec_node_count() == old(self).spec_node_count(),
            final(self).spec_tunable() == old(self).spec_tunable(),
            final(self).spec_history() == old(self).spec_history(),
    {
        let key = self.position_zobrist_key();
        self.repetition_table.push(key);
        let game_state = self.board.make_null_move();
        ExtendedState { game_state, search_state: self.search_state }
    }

    /// Takes back a pass made with `make_null_move`.
    pub fn unmake_null_move(&mut self, old_state: &ExtendedState)
        requires
            old(self).spec_repetitions().len() > 0,
        ensures
            final(self).spec_board().bit_boards == old(self).spec_board().bit_boards,
            final(self).spec_board().white_to_move == !old(self).spec_board().white_to_move,
            final(self).spec_board().game_state == old_state.game_state,
            final(self).spec_search_state() == old_state.search_state,
            final(self).spec_repetitions() == old(self).spec_repetitions().drop_last(),
            old(self).wf() && old_state.game_state.wf() && old_state.search_state
                == old(self).spec_search_state() ==> final(self).wf(),
            final(self).spec_pv() == old(self).spec_pv(),
            final(self).spec_highest_depth() == old(self).spec_highest_depth(),
            final(self).spec_node_count() == old(self).spec_node_count(),
            final(self).spec_tunable() == old(self).spec_tunable(),
            final(self).spec_history() == old(self).spec_history(),
    {
        let ghost before = self.board;
        self.board.unmake_null_move(&old_state.game_state);
        self.search_state = old_state.search_state;
        self.repetition_table.pop();
        proof {
            crate::board::lemma_same_bits(before, self.board);
        }
    }

    /// Whether a score means a forced checkmate.
    pub fn score_is_checkmate(score: Score) -> (checkmate: bool)
        ensures
            checkmate == (score >= CHECKMATE_SCORE || score <= -CHECKMATE_SCORE),
    {
        score >= CHECKMATE_SCORE || score <= -CHECKMATE_SCORE
    }

    /// The search parameters.
    pub fn tunable(&self) -> (tunable: Tunable)
        ensures
            tunable == self.spec_tunable(),
    {
        self.tunable
    }

    /// How many moves the search made.
    pub fn node_count(&self) -> (count: u64)
        ensures
            count == self.spec_node_count(),
    {
        self.node_count
    }

    /// Hard and soft time limits for a move, given the time left on the clock
    /// and the increment: the hard limit is the clock divided by the hard
    /// divisor plus twice the increment, at most half the clock; the soft
    /// limit is the clock divided by the soft divisor plus half the
    /// increment, at most the hard limit.
    pub fn calculate_time(&self, clock_time: u64, increment: u64) -> (limits: (u64, u64))
        requires
            self.spec_tunable().hard_time_divisor > 0,
            self.spec_tunable().soft_time_divisor > 0,
            clock_time / self.spec_tunable().hard_time_divisor + increment * 2 <= u64::MAX,
            clock_time / self.spec_tunable().soft_time_divisor + increment / 2 <= u64::MAX,
        ensures
            limits.0 == min(
                clock_time / self.spec_tunable().hard_time_divisor + increment * 2,
                (clock_time / 2) as int,
            ),
            limits.1 == min(
                clock_time / self.spec_tunable().soft_time_divisor + (increment / 2) as int,
                limits.0 as int,
            ),
    {
        let max_time = clock_time / 2;
        let hard = clock_time / self.tunable.hard_time_divisor + increment * 2;
        let hard_time_limit = if hard < max_time {
            hard
        } else {
            max_time
        };
        let soft = clock_time / self.tunable.soft_time_divisor + increment / 2;
        let soft_time_limit = if soft < hard_time_limit {
            soft
        } else {
            hard_time_limit
        };
        (hard_time_limit, soft_time_limit)
    }

    /// Looks `ply_remaining` moves ahead from the current position, at
    /// `ply_from_root` moves from the root, and returns the value of the
    /// position for the side to move. Each move made counts one node; once
    /// the time manager calls for a hard stop, no further move is made and
    /// the result is 0. The best line found is stored in the principal
    /// variation. Also returns whether the time manager called for a hard
    /// stop during the call; when it did not, the results are exact.
    #[verifier::rlimit(80)]
    fn negamax(&mut self, time_manager: &TimeManager, ply_remaining: Ply, ply_from_root: Ply) -> (result: (Score, bool))
        requires
            old(self).wf(),
            ply_from_root + ply_remaining < PLIES,
            old(self).board.game_state.half_move_clock + ply_remaining < u32::MAX,
        ensures
            final(self).wf(),
            final(self).board@ == old(self).board@,
            final(self).tunable == old(self).tunable,
            final(self).repetition_table@ == old(self).repetition_table@,
            final(self).history == old(self).history,
            final(self).node_count >= old(self).node_count,
            final(self).node_count <= capped(old(self).node_count + tree_size(old(self).board@, ply_remaining as nat)),
            larger(old(self).highest_depth as int, ply_from_root as int) <= final(self).highest_depth <= larger(
                old(self).highest_depth as int,
                ply_from_root + ply_remaining,
            ),
            !result.1 ==> final(self).highest_depth == larger(
                old(self).highest_depth as int,
                ply_from_root + reach(old(self).board@, ply_remaining as nat),
            ),
            LOWEST_SCORE <= result.0,
            result.1 && !time_manager.interruptible() ==> time_manager.nodes_exhausted(final(self).node_count),
            !result.1 ==> result.0
                == negamax_value(old(self).board@, ply_remaining as nat, ply_from_root as int) && final(self).node_count
                == capped(old(self).node_count + tree_size(old(self).board@, ply_remaining as nat)),
            forall|r: int, c: int|
                0 <= r < ply_from_root && 0 <= c < PLIES ==> #[trigger] final(self).pv.entry(r, c) == old(
                    self,
                ).pv.entry(r, c),
            forall|r: int| 0 <= r < ply_from_root ==> #[trigger] final(self).pv.length(r) == old(self).pv.length(r),
            final(self).pv.length(ply_from_root as int) >= ply_from_root,
            ply_remaining == 0 || legal_moves(old(self).board@, false).len() == 0 ==> final(self).pv.table()
                == old(self).pv.table(),
            final(self).pv.entry(ply_from_root as int, ply_from_root as int) == old(self).pv.entry(
                ply_from_root as int,
                ply_from_root as int,
            ) || exists|m: Move|
                legal(old(self).board@, m) && #[trigger] encode(m) == final(self).pv.entry(
                    ply_from_root as int,
                    ply_from_root as int,
                ).0,
            !result.1 && ply_remaining > 0 && legal_moves(old(self).board@, false).len() > 0 ==> final(self).pv.length(ply_from_root as int)
                > ply_from_root && best_move(
                old(self).board@,
                legal_moves(old(self).board@, false),
                ply_remaining as nat,
                ply_from_root as int,
            ) is Some && final(self).pv.entry(ply_from_root as int, ply_from_root as int).0 == encode(
                best_move(
                    old(self).board@,
                    legal_moves(old(self).board@, false),
                    ply_remaining as nat,
                    ply_from_root as int,
                )->0,
            ),
        decreases ply_remaining,
    {
        if ply_from_root > self.highest_depth {
            self.highest_depth = ply_from_root;
        }
        self.pv.set_pv_length(ply_from_root, ply_from_root);
        if ply_remaining == 0 {
            proof {
                lemma_evaluation_bounds(self.board@);
                assert(tree_size(self.board@, 0) == 0);
            }
            return (self.static_evaluate(), false);
        }
        let ghost v = self.board@;
        let ghost steady = !time_manager.interruptible();
        let ghost table_start = self.pv.table();
        let move_generator = MoveGenerator::new(&self.board);
        let moves = move_generator.generate(false);
        proof {
            lemma_moves_upto_legal(v, false, 32768);
            assert(v.squares.len() == 64);
        }
        let mut best: Score = LOWEST_SCORE;
        let mut cut_short: bool = false;
        let mut move_count: usize = 0;
        let mut i: usize = 0;
        while i < moves.len()
            invariant
                self.wf(),
                self.board@ == v,
                self.tunable == old(self).tunable,
                self.repetition_table@ == old(self).repetition_table@,
                self.history == old(self).history,
                self.node_count >= old(self).node_count,
                steady == !time_manager.interruptible(),
                cut_short && steady ==> time_manager.nodes_exhausted(self.node_count),
                i == 0 ==> self.pv.table() == table_start,
                larger(old(self).highest_depth as int, ply_from_root as int) <= self.highest_depth <= larger(
                    old(self).highest_depth as int,
                    ply_from_root + ply_remaining,
                ),
                !cut_short ==> self.highest_depth == larger(
                    larger(old(self).highest_depth as int, ply_from_root as int),
                    ply_from_root + reach_of_moves(v, moves@.subrange(0, i as int), ply_remaining as nat),
                ),
                self.pv.entry(ply_from_root as int, ply_from_root as int) == old(self).pv.entry(
                    ply_from_root as int,
                    ply_from_root as int,
                ) || exists|mv: Move|
                    legal(v, mv) && #[trigger] encode(mv) == self.pv.entry(ply_from_root as int, ply_from_root as int).0,
                self.node_count <= capped(
                    old(self).node_count + tree_sum(v, moves@.subrange(0, i as int), ply_remaining as nat),
                ),
                ply_remaining > 0,
                ply_from_root + ply_remaining < PLIES,
                self.board.game_state.half_move_clock + ply_remaining < u32::MAX,
                moves@ == legal_moves(v, false),
                forall|j: int| 0 <= j < moves@.len() ==> legal(v, #[trigger] moves@[j]),
                i <= moves.len(),
                move_count == i,
                LOWEST_SCORE <= best,
                !cut_short ==> best == best_score(
                    v,
                    moves@.subrange(0, i as int),
                    ply_remaining as nat,
                    ply_from_root as int,
                ),
                !cut_short ==> self.node_count == capped(
                    old(self).node_count + tree_sum(v, moves@.subrange(0, i as int), ply_remaining as nat),
                ),
                self.pv.wf(),
                forall|r: int, c: int|
                    0 <= r < ply_from_root && 0 <= c < PLIES ==> #[trigger] self.pv.entry(r, c) == old(self).pv.entry(
                        r,
                        c,
                    ),
                forall|r: int| 0 <= r < ply_from_root ==> #[trigger] self.pv.length(r) == old(self).pv.length(r),
                self.pv.length(ply_from_root as int) >= ply_from_root,
                !cut_short && i > 0 ==> self.pv.length(ply_from_root as int) > ply_from_root,
                !cut_short && i > 0 ==> best_move(
                    v,
                    moves@.subrange(0, i as int),
                    ply_remaining as nat,
                    ply_from_root as int,
                ) is Some && self.pv.entry(ply_from_root as int, ply_from_root as int).0 == encode(
                    best_move(v, moves@.subrange(0, i as int), ply_remaining as nat, ply_from_root as int)->0,
                ),
            decreases moves.len() - i,
        {
            let m = moves[i];
            move_count = move_count + 1;
            if !time_manager.hard_stop_inner_search(self.node_count) {
                let ghost before_count = self.node_count;
                if self.node_count < 0xffff_ffff_ffff_ffff {
                    self.node_count = self.node_count + 1;
                }
                proof {
                    lemma_pseudo_legal_can_make(v, m);
                    lemma_can_make_runs(self.board, m);
                    lemma_moves_own_piece(self.board, m);
                }
                let old_state = self.make_move(&m);
                let (child, child_cut_short) = self.negamax(time_manager, ply_remaining - 1, ply_from_root + 1);
                if child_cut_short {
                    cut_short = true;
                }
                let score = -child;
                proof {
                    lemma_unmake_inverts_make(v, m);
                    lemma_can_unmake_runs(self.board, m, old_state.game_state);
                }
                self.unmake_move(&m, &old_state);
                proof {
                    lemma_best_score_push(
                        v,
                        moves@.subrange(0, i as int),
                        m,
                        ply_remaining as nat,
                        ply_from_root as int,
                    );
                    lemma_tree_sum_push(v, moves@.subrange(0, i as int), m, ply_remaining as nat);
                    lemma_reach_push(v, moves@.subrange(0, i as int), m, ply_remaining as nat);
                    lemma_best_move_push(v, moves@.subrange(0, i as int), m, ply_remaining as nat, ply_from_root as int);
                    lemma_made_len(v, m);
                    lemma_negamax_bounds(made(v, m), (ply_remaining - 1) as nat, ply_from_root + 1);
                    if i == 0 {
                        assert(moves@.subrange(0, 0) =~= Seq::<Move>::empty());
                    }
                    let previous = old(self).node_count + tree_sum(v, moves@.subrange(0, i as int), ply_remaining as nat);
                    let child_size = tree_size(made(v, m), (ply_remaining - 1) as nat) as int;
                    lemma_capped_add(previous, 1);
                    lemma_capped_add(previous + 1, child_size);
                    lemma_capped_add(before_count as int, 1);
                    lemma_capped_add(before_count + 1, child_size);
                    lemma_capped_add(previous, 1 + child_size);
                    assert(moves@.subrange(0, i + 1) =~= moves@.subrange(0, i as int).push(m));
                }
                if score > best {
                    let ghost before_update = self.pv;
                    self.pv.update_move(ply_from_root, EncodedMove::new(m));
                    proof {
                        assert(legal(v, m) && encode(m) == self.pv.entry(ply_from_root as int, ply_from_root as int).0);
                        assert forall|r: int| 0 <= r < ply_from_root implies #[trigger] self.pv.length(r)
                            == before_update.length(r) by {
                            assert(self.pv.lengths()[r] == before_update.lengths()[r]);
                        }
                        assert(self.pv.length(ply_from_root as int) == before_update.length(ply_from_root + 1));
                    }
                    best = score;
                }
            } else {
                cut_short = true;
                proof {
                    lemma_tree_sum_push(v, moves@.subrange(0, i as int), m, ply_remaining as nat);
                    lemma_reach_push(v, moves@.subrange(0, i as int), m, ply_remaining as nat);
                    assert(moves@.subrange(0, i + 1) =~= moves@.subrange(0, i as int).push(m));
                }
            }
            i = i + 1;
        }
        proof {
            assert(moves@.subrange(0, moves@.len() as int) =~= moves@);
            assert(tree_size(v, ply_remaining as nat) == tree_sum(v, moves@, ply_remaining as nat));
            assert(reach(v, ply_remaining as nat) == reach_of_moves(v, moves@, ply_remaining as nat));
        }
        if time_manager.hard_stop_inner_search(self.node_count) {
            return (0, true);
        }
        if move_count == 0 {
            if move_generator.is_in_check() {
                return (-IMMEDIATE_CHECKMATE_SCORE + ply_from_root as Score, cut_short);
            } else {
                return (0, cut_short);
            }
        }
        (best, cut_short)
    }

    /// Searches the board one depth deeper at a time, from depth 1, adding
    /// the result of each completed depth to `depth_completed`. Stops when
    /// the time manager calls for a hard stop (the depth cut short is not
    /// reported), when no best move is known at the root, after depth
    /// `PLIES - 1`, or when the time manager calls for a soft stop. Returns
    /// the last depth started and the score of the last depth completed.
    /// A depth that no hard stop cut short has its exact value and best move.
    #[verifier::rlimit(100)]
    pub fn iterative_deepening(
        &mut self,
        time_manager: &TimeManager,
        depth_completed: &mut Vec<DepthSearchInfo>,
    ) -> (result: (Ply, Score))
        requires
            old(self).wf(),
            old(self).spec_board().game_state.half_move_clock + deepest(*time_manager) < u32::MAX,
        ensures
            final(self).wf(),
            final(self).spec_board()@ == old(self).spec_board()@,
            final(self).spec_tunable() == old(self).spec_tunable(),
            final(self).spec_history() == old(self).spec_history(),
            final(self).spec_repetitions() == old(self).spec_repetitions(),
            1 <= result.0 <= deepest(*time_manager),
            final(depth_completed)@.len() == old(depth_completed)@.len() + result.0
                || final(depth_completed)@.len() == old(depth_completed)@.len() + result.0 - 1,
            forall|j: int| 0 <= j < old(depth_completed)@.len() ==> #[trigger] final(depth_completed)@[j]
                == old(depth_completed)@[j],
            forall|j: int|
                old(depth_completed)@.len() <= j < final(depth_completed)@.len() ==> (
                #[trigger] final(depth_completed)@[j]).depth == j - old(depth_completed)@.len() + 1
                    && final(depth_completed)@[j].hash_full == 0 && old(self).spec_node_count()
                    <= final(depth_completed)@[j].node_count <= final(self).spec_node_count(),
            forall|j: int, k: int|
                old(depth_completed)@.len() <= j < k < final(depth_completed)@.len() ==> (
                #[trigger] final(depth_completed)@[j]).node_count <= (#[trigger] final(depth_completed)@[k]).node_count,
            old(self).spec_node_count() <= final(self).spec_node_count() <= capped(
                old(self).spec_node_count() + deepening_size(old(self).spec_board()@, result.0 as nat),
            ),
            legal_moves(old(self).spec_board()@, false).len() == 0 && old(self).spec_pv().entry(0, 0).0 == 0
                ==> result.0 == 1 && final(depth_completed)@.len() == old(depth_completed)@.len(),
            forall|j: int|
                old(depth_completed)@.len() <= j < final(depth_completed)@.len() && (
                #[trigger] final(depth_completed)@[j]).best.0@.len() > 0 ==> final(depth_completed)@[j].best.0@[0].0
                    != 0 && (final(depth_completed)@[j].best.0@[0] == old(self).spec_pv().entry(0, 0) || exists|
                    m: Move,
                |
                    legal(old(self).spec_board()@, m) && #[trigger] encode(m) == final(depth_completed)@[j].best.0@[0].0),
            forall|j: int|
                old(depth_completed)@.len() <= j < final(depth_completed)@.len() ==> (#[trigger] final(depth_completed)@[j]).best.1 == negamax_value(
                    old(self).spec_board()@,
                    (j - old(depth_completed)@.len() + 1) as nat,
                    0,
                ) && final(depth_completed)@[j].node_count == capped(
                    old(self).spec_node_count() + deepening_size(old(self).spec_board()@, (j - old(depth_completed)@.len() + 1) as nat),
                ) && final(depth_completed)@[j].highest_depth == larger(
                    old(self).spec_highest_depth() as int,
                    deepening_reach(old(self).spec_board()@, (j - old(depth_completed)@.len() + 1) as nat),
                ),
            legal_moves(old(self).spec_board()@, false).len() > 0 ==> forall|j: int|
                old(depth_completed)@.len() <= j < final(depth_completed)@.len() ==> (#[trigger] final(depth_completed)@[j]).best.0@.len() > 0 && final(depth_completed)@[j].best.0@[0].0 == encode(
                    best_move(old(self).spec_board()@, legal_moves(old(self).spec_board()@, false), (j - old(depth_completed)@.len() + 1) as nat, 0)->0,
                ),
            final(depth_completed)@.len() == old(depth_completed)@.len() + result.0 ==> result.1 == negamax_value(old(self).spec_board()@, result.0 as nat, 0)
                && final(self).spec_node_count() == capped(
                old(self).spec_node_count() + deepening_size(old(self).spec_board()@, result.0 as nat),
            ),
            legal_moves(old(self).spec_board()@, false).len() > 0 && final(depth_completed)@.len() == old(depth_completed)@.len() + result.0 ==> best_move(
                old(self).spec_board()@,
                legal_moves(old(self).spec_board()@, false),
                result.0 as nat,
                0,
            ) is Some && final(self).spec_pv().entry(0, 0).0 == encode(
                best_move(old(self).spec_board()@, legal_moves(old(self).spec_board()@, false), result.0 as nat, 0)->0,
            ),
            legal_moves(old(self).spec_board()@, false).len() > 0 && final(depth_completed)@.len() == old(depth_completed)@.len() + result.0 - 1 ==> result.1 == (if result.0 == 1 {
                LOWEST_SCORE as int
            } else {
                negamax_value(old(self).spec_board()@, (result.0 - 1) as nat, 0)
            }),
            result.1 == negamax_value(old(self).spec_board()@, result.0 as nat, 0) || (final(depth_completed)@.len() == old(depth_completed)@.len() + result.0 - 1 && result.1 == (
            if result.0 == 1 {
                LOWEST_SCORE as int
            } else {
                negamax_value(old(self).spec_board()@, (result.0 - 1) as nat, 0)
            })),
            !time_manager.interruptible() ==> {
                &&& forall|j: int|
                    old(depth_completed)@.len() <= j < final(depth_completed)@.len() ==> (j - old(depth_completed)@.len() + 1 < result.0 ==> deepens_after(
                        *time_manager,
                        j - old(depth_completed)@.len() + 1,
                        (#[trigger] final(depth_completed)@[j]).node_count as int,
                    ))
                &&& final(depth_completed)@.len() == old(depth_completed)@.len() + result.0 ==> !deepens_after(
                    *time_manager,
                    result.0 as int,
                    final(self).spec_node_count() as int,
                )
                &&& time_manager.nodes_exhausted(final(self).spec_node_count()) ==> final(depth_completed)@.len() == old(depth_completed)@.len() + result.0 - 1
                &&& !time_manager.nodes_exhausted(final(self).spec_node_count()) && legal_moves(old(self).spec_board()@, false).len() > 0
                    ==> final(depth_completed)@.len() == old(depth_completed)@.len() + result.0
            },
    {
        let ghost v = self.board@;
        let ghost n0 = self.node_count as int;
        let ghost steady = !time_manager.interruptible();
        let ghost fresh_mate = legal_moves(v, false).len() == 0 && self.pv.entry(0, 0).0 == 0;
        let ghost start = depth_completed@.len();
        let ghost mut completed: int = 0;
        let mut depth: Ply = 0;
        let mut previous_best_score: Score = LOWEST_SCORE;
        let mut best_move_stability: u64 = 0;
        let mut previous_best_move = EncodedMove::none();
        loop
            invariant_except_break
                depth < deepest(*time_manager),
                best_move_stability <= depth,
                depth_completed@.len() == start + depth,
                completed == depth,
                fresh_mate ==> depth == 0,
                previous_best_score == (if depth_completed@.len() == start {
                    LOWEST_SCORE
                } else {
                    depth_completed@[depth_completed@.len() - 1].best.1
                }),
                steady && depth >= 1 ==> !time_manager.nodes_exhausted(self.node_count),
                steady ==> forall|j: int|
                    start <= j < depth_completed@.len() ==> deepens_after(
                        *time_manager,
                        j - start + 1,
                        (#[trigger] depth_completed@[j]).node_count as int,
                    ),
            invariant
                self.wf(),
                self.board@ == v,
                self.tunable == old(self).tunable,
                self.repetition_table@ == old(self).repetition_table@,
                self.history == old(self).history,
                self.board.game_state.half_move_clock + deepest(*time_manager) < u32::MAX,
                steady == !time_manager.interruptible(),
                n0 == old(self).node_count,
                fresh_mate == (legal_moves(v, false).len() == 0 && old(self).pv.entry(0, 0).0 == 0),
                fresh_mate ==> self.pv.entry(0, 0).0 == 0,
                self.pv.entry(0, 0) == old(self).pv.entry(0, 0) || exists|mv: Move|
                    legal(v, mv) && #[trigger] encode(mv) == self.pv.entry(0, 0).0,
                forall|j: int|
                    start <= j < depth_completed@.len() && (#[trigger] depth_completed@[j]).best.0@.len() > 0
                        ==> depth_completed@[j].best.0@[0].0 != 0 && (depth_completed@[j].best.0@[0] == old(
                        self,
                    ).pv.entry(0, 0) || exists|mv: Move|
                        legal(v, mv) && #[trigger] encode(mv) == depth_completed@[j].best.0@[0].0),
                start == old(depth_completed)@.len(),
                0 <= completed <= depth,
                completed == depth || completed == depth - 1,
                depth_completed@.len() == start + completed || depth_completed@.len() == start + completed - 1,
                completed == depth - 1 ==> depth_completed@.len() == start + completed,
                n0 <= self.node_count <= capped(n0 + deepening_size(v, depth as nat)),
                forall|j: int| 0 <= j < start ==> #[trigger] depth_completed@[j] == old(depth_completed)@[j],
                forall|j: int|
                    start <= j < depth_completed@.len() ==> (#[trigger] depth_completed@[j]).depth == j - start
                        + 1 && depth_completed@[j].hash_full == 0 && n0 <= depth_completed@[j].node_count
                        <= self.node_count,
                forall|j: int, k: int|
                    start <= j < k < depth_completed@.len() ==> (#[trigger] depth_completed@[j]).node_count
                        <= (#[trigger] depth_completed@[k]).node_count,
                forall|j: int|
                    start <= j < depth_completed@.len() ==> (#[trigger] depth_completed@[j]).best.1
                        == negamax_value(v, (j - start + 1) as nat, 0) && depth_completed@[j].node_count == capped(
                        n0 + deepening_size(v, (j - start + 1) as nat),
                    ) && depth_completed@[j].highest_depth == larger(
                        old(self).highest_depth as int,
                        deepening_reach(v, (j - start + 1) as nat),
                    ),
                completed == depth ==> self.highest_depth == larger(
                    old(self).highest_depth as int,
                    deepening_reach(v, depth as nat),
                ),
                legal_moves(v, false).len() > 0 ==> forall|j: int|
                    start <= j < depth_completed@.len() ==> (#[trigger] depth_completed@[j]).best.0@.len() > 0
                        && depth_completed@[j].best.0@[0].0 == encode(
                        best_move(v, legal_moves(v, false), (j - start + 1) as nat, 0)->0,
                    ),
                previous_best_score == (if completed == 0 {
                    LOWEST_SCORE as int
                } else {
                    negamax_value(v, completed as nat, 0)
                }),
                completed == depth ==> self.node_count == capped(n0 + deepening_size(v, depth as nat)),
                steady && depth >= 1 && completed == depth ==> !time_manager.nodes_exhausted(self.node_count),
                steady && completed == depth - 1 ==> time_manager.nodes_exhausted(self.node_count),
                self.pv.wf(),
                legal_moves(v, false).len() > 0 && depth >= 1 && completed == depth ==> best_move(
                    v,
                    legal_moves(v, false),
                    depth as nat,
                    0,
                ) is Some && self.pv.entry(0, 0).0 == encode(best_move(v, legal_moves(v, false), depth as nat, 0)->0),
            ensures
                1 <= depth <= deepest(*time_manager),
                fresh_mate ==> depth == 1 && depth_completed@.len() == start,
                depth_completed@.len() == start + depth || depth_completed@.len() == start + depth - 1,
                steady ==> forall|j: int|
                    start <= j < depth_completed@.len() ==> (j - start + 1 < depth ==> deepens_after(
                        *time_manager,
                        j - start + 1,
                        (#[trigger] depth_completed@[j]).node_count as int,
                    )),
                steady && depth_completed@.len() == start + depth ==> !deepens_after(
                    *time_manager,
                    depth as int,
                    self.node_count as int,
                ),
                steady && !time_manager.nodes_exhausted(self.node_count) ==> completed == depth,
                steady && !time_manager.nodes_exhausted(self.node_count) && legal_moves(v, false).len() > 0
                    ==> depth_completed@.len() == start + depth,
                legal_moves(v, false).len() > 0 && completed == depth ==> depth_completed@.len() == start + depth,
            decreases PLIES - depth,
        {
            depth = depth + 1;
            let ghost count_before = self.node_count;
            let (best_score, cut_short) = self.negamax(time_manager, depth, 0);
            proof {
                lemma_capped_add(n0 + deepening_size(v, (depth - 1) as nat), tree_size(v, depth as nat) as int);
                lemma_capped_add(count_before as int, tree_size(v, depth as nat) as int);
                assert(deepening_size(v, depth as nat) == deepening_size(v, (depth - 1) as nat) + tree_size(
                    v,
                    depth as nat,
                ));
            }
            if cut_short || time_manager.hard_stop_iterative_deepening(depth, self.node_count) {
                break;
            }
            previous_best_score = best_score;
            proof {
                completed = depth as int;
                if legal_moves(v, false).len() > 0 {
                    let best = best_move(v, legal_moves(v, false), depth as nat, 0)->0;
                    lemma_best_move_in(v, legal_moves(v, false), depth as nat, 0);
                    lemma_moves_upto_legal(v, false, 32768);
                    let i = choose|i: int| 0 <= i < legal_moves(v, false).len() && legal_moves(v, false)[i] == best;
                    assert(legal(v, legal_moves(v, false)[i]));
                    lemma_legal_encoding(v, best);
                }
            }
            if self.pv.root_best_move().is_none() {
                break;
            }
            let root_best_move = self.pv.root_best_move();
            if root_best_move.0 == previous_best_move.0 {
                best_move_stability = best_move_stability + 1;
            } else {
                best_move_stability = 0;
                previous_best_move = root_best_move;
            }
            let line = self.pv.best_line();
            let info = DepthSearchInfo {
                depth,
                highest_depth: self.highest_depth,
                best: (line, best_score),
                node_count: self.node_count,
                hash_full: self.hash_full(),
            };
            depth_completed.push(info);
            if depth as usize == PLIES - 1 {
                break;
            }
            if time_manager.soft_stop(depth, self.node_count, best_move_stability, &self.tunable) {
                break;
            }
        }
        (depth, previous_best_score)
    }

    /// How full the transposition table is, in thousandths (this search keeps none).
    pub fn hash_full(&self) -> (full: u16)
        ensures
            full == 0,
    {
        0
    }
}

/// The piece a move puts on its target square.
pub open spec fn placed_piece(v: crate::board::BoardView, m: Move) -> Piece {
    match promotion_piece(m.flag, v.white_to_move) {
        Some(p) => p,
        None => v.squares[m.from.0 as int]->0,
    }
}

/// Middle game sum after the moving piece leaves its square and the placed
/// piece replaces what stood on the target square.
pub open spec fn middle_after_moving(v: crate::board::BoardView, m: Move) -> int {
    middle_game_sum(v.squares, 64) - middle_game_value(v.squares[m.from.0 as int], m.from.0 as int)
        - middle_game_value(v.squares[m.to.0 as int], m.to.0 as int) + middle_game_value(
        Some(placed_piece(v, m)),
        m.to.0 as int,
    )
}

/// End game sum after the moving piece leaves its square and the placed
/// piece replaces what stood on the target square.
pub open spec fn end_after_moving(v: crate::board::BoardView, m: Move) -> int {
    end_game_sum(v.squares, 64) - end_game_value(v.squares[m.from.0 as int], m.from.0 as int)
        - end_game_value(v.squares[m.to.0 as int], m.to.0 as int) + end_game_value(
        Some(placed_piece(v, m)),
        m.to.0 as int,
    )
}

/// The evaluation sums after a move, obtained square update by square update.
#[verifier::rlimit(40)]
proof fn lemma_sums_after_move(board: Board, m: Move)
    requires
        board.wf(),
        can_make(board@, m),
    ensures
        board@.squares[m.from.0 as int] is Some,
        m.flag == Flag::Castle ==> middle_game_sum(made(board@, m).squares, 64) == middle_after_moving(board@, m)
            - middle_game_value(board@.squares[castle_rook_from(m.to.0 as int)], castle_rook_from(m.to.0 as int))
            + middle_game_value(Some(crate::piece::piece_of(3, board.white_to_move)), castle_rook_to(m.to.0 as int)),
        m.flag == Flag::Castle ==> end_game_sum(made(board@, m).squares, 64) == end_after_moving(board@, m)
            - end_game_value(board@.squares[castle_rook_from(m.to.0 as int)], castle_rook_from(m.to.0 as int))
            + end_game_value(Some(crate::piece::piece_of(3, board.white_to_move)), castle_rook_to(m.to.0 as int)),
        m.flag == Flag::EnPassant ==> middle_game_sum(made(board@, m).squares, 64) == middle_after_moving(board@, m)
            - middle_game_value(
            board@.squares[en_passant_capture(en_passant_index(board.game_state), board.white_to_move)],
            en_passant_capture(en_passant_index(board.game_state), board.white_to_move),
        ),
        m.flag == Flag::EnPassant ==> end_game_sum(made(board@, m).squares, 64) == end_after_moving(board@, m)
            - end_game_value(
            board@.squares[en_passant_capture(en_passant_index(board.game_state), board.white_to_move)],
            en_passant_capture(en_passant_index(board.game_state), board.white_to_move),
        ),
        m.flag != Flag::Castle && m.flag != Flag::EnPassant ==> middle_game_sum(made(board@, m).squares, 64)
            == middle_after_moving(board@, m),
        m.flag != Flag::Castle && m.flag != Flag::EnPassant ==> end_game_sum(made(board@, m).squares, 64)
            == end_after_moving(board@, m),
{
    let v = board@;
    let w = PHASE_WEIGHTS@;
    let from = m.from.0 as int;
    let to = m.to.0 as int;
    let white = v.white_to_move;
    let piece = v.squares[from]->0;
    board.lemma_piece_at(from);
    let placed = match promotion_piece(m.flag, white) {
        Some(p) => p,
        None => piece,
    };
    let s1 = v.squares.update(from, None);
    let s2 = s1.update(to, Some(placed));
    lemma_sum_update(v.squares, w, from, None, 64);
    lemma_sum_update(s1, w, to, Some(placed), 64);
    if m.flag == Flag::Castle {
        let rf = castle_rook_from(to);
        let rt = castle_rook_to(to);
        let rook = crate::piece::piece_of(3, white);
        let s3 = s2.update(rf, None);
        lemma_sum_update(s2, w, rf, None, 64);
        lemma_sum_update(s3, w, rt, Some(rook), 64);
        assert(made(v, m).squares == s3.update(rt, Some(rook)));
    } else if m.flag == Flag::EnPassant {
        let c = en_passant_capture(en_passant_index(v.state), white);
        lemma_sum_update(s2, w, c, None, 64);
        assert(made(v, m).squares == s2.update(c, None));
    } else {
        assert(made(v, m).squares == s2);
    }
}

/// The smaller of two integers.
pub open spec fn min(a: int, b: int) -> int {
    if a < b {
        a
    } else {
        b
    }
}

/// Score a search starts from before any move is tried (`-Score::MAX`).
pub const LOWEST_SCORE: Score = -0x7fff_ffff;

/// Value of a position for the side to move, looking `depth` moves ahead
/// at `ply` moves from the root: the static evaluation at depth zero; with
/// no legal move, a checkmate (worse the sooner it comes) or a stalemate;
/// otherwise the best of the moves, each worth the negated value of the
/// position it leads to.
pub open spec fn negamax_value(v: BoardView, depth: nat, ply: int) -> int
    decreases depth, 1nat, 0nat,
{
    if depth == 0 {
        evaluation(v)
    } else {
        let moves = legal_moves(v, false);
        if moves.len() == 0 {
            if in_check(v, v.white_to_move) {
                -IMMEDIATE_CHECKMATE_SCORE + ply
            } else {
                0
            }
        } else {
            best_score(v, moves, depth, ply)
        }
    }
}

/// Best score among the moves (`LOWEST_SCORE` for none), keeping the first
/// of equal scores.
pub open spec fn best_score(v: BoardView, moves: Seq<Move>, depth: nat, ply: int) -> int
    decreases depth, 0nat, moves.len(),
{
    if depth == 0 || moves.len() == 0 {
        LOWEST_SCORE as int
    } else {
        let previous = best_score(v, moves.drop_last(), depth, ply);
        let score = -negamax_value(made(v, moves.last()), (depth - 1) as nat, ply + 1);
        if score > previous {
            score
        } else {
            previous
        }
    }
}

/// A move that can be made keeps the 64 squares.
proof fn lemma_made_len(v: BoardView, m: Move)
    requires
        can_make(v, m),
    ensures
        made(v, m).squares.len() == 64,
{
}

/// Making a move with `Search::make_move` and taking it back with
/// `Search::unmake_move` gives back the same position and evaluation sums.
pub proof fn lemma_search_make_unmake(
    before: Search,
    after_make: Search,
    after_unmake: Search,
    m: Move,
    old_state: ExtendedState,
)
    requires
        before.wf(),
        can_make(before.spec_board()@, m),
        old_state.game_state == before.spec_board().game_state,
        old_state.search_state == before.spec_search_state(),
        after_make.spec_board()@ == made(before.spec_board()@, m),
        after_unmake.spec_board()@ == unmade(after_make.spec_board()@, m, old_state.game_state),
        after_unmake.spec_search_state() == old_state.search_state,
    ensures
        after_unmake.spec_board()@ == before.spec_board()@,
        after_unmake.spec_search_state() == before.spec_search_state(),
        after_unmake.spec_search_state() == state_of(after_unmake.spec_board()),
{
    lemma_unmake_inverts_make(before.spec_board()@, m);
}

/// What `evaluation_add_piece` adds to the evaluation sums,
/// `evaluation_remove_piece` takes out again for the same piece and square;
/// and a white piece on a square counts exactly opposite to the black piece
/// of the same kind on the mirrored square.
pub proof fn lemma_evaluation_updates(kind: int, square: int, middle: int, end: int)
    requires
        0 <= kind < 6,
        0 <= square < 64,
    ensures
        forall|piece: Piece|
            (middle + #[trigger] crate::evaluation::middle_game_value(Some(piece), square))
                - crate::evaluation::middle_game_value(Some(piece), square) == middle && (end
                + crate::evaluation::end_game_value(Some(piece), square)) - crate::evaluation::end_game_value(
                Some(piece),
                square,
            ) == end,
        crate::evaluation::middle_game_value(Some(piece_of(kind, true)), square)
            == -crate::evaluation::middle_game_value(Some(piece_of(kind, false)), flipped_index(square)),
        crate::evaluation::end_game_value(Some(piece_of(kind, true)), square)
            == -crate::evaluation::end_game_value(Some(piece_of(kind, false)), flipped_index(square)),
{
    lemma_piece_index(piece_of(kind, true), kind);
    lemma_piece_index(piece_of(kind, false), kind + 6);
    assert(0 <= flipped_index(square) < 64);
    assert(flipped_index(flipped_index(square)) == square);
}

/// The deepest depth a search with the time manager can start: its depth
/// limit (at least 1), and never more than `PLIES - 1`.
pub open spec fn deepest(time_manager: TimeManager) -> int {
    match time_manager.spec_max_depth() {
        Some(max) => if max == 0 {
            1
        } else if max < PLIES - 1 {
            max as int
        } else {
            PLIES - 1
        },
        None => PLIES - 1,
    }
}

/// Whether, without a clock, a search that has completed `depth` with
/// `node_count` moves made goes on to the next depth: it is below the
/// deepest depth, the depth limit and the soft node limit.
pub open spec fn deepens_after(time_manager: TimeManager, depth: int, node_count: int) -> bool {
    &&& depth < PLIES - 1
    &&& !(time_manager.spec_max_depth() matches Some(max) && depth >= max)
    &&& !(time_manager.spec_soft_max_nodes() matches Some(soft) && node_count >= soft)
}

/// The first of the moves with the best score, if there is a move.
pub open spec fn best_move(v: BoardView, moves: Seq<Move>, depth: nat, ply: int) -> Option<Move>
    decreases moves.len(),
{
    if moves.len() == 0 {
        None
    } else if -negamax_value(made(v, moves.last()), (depth - 1) as nat, ply + 1) > best_score(
        v,
        moves.drop_last(),
        depth,
        ply,
    ) {
        Some(moves.last())
    } else {
        best_move(v, moves.drop_last(), depth, ply)
    }
}

/// The best move is one of the moves.
proof fn lemma_best_move_in(v: BoardView, moves: Seq<Move>, depth: nat, ply: int)
    ensures
        best_move(v, moves, depth, ply) matches Some(m) ==> exists|i: int| 0 <= i < moves.len() && moves[i] == m,
    decreases moves.len(),
{
    if moves.len() > 0 {
        lemma_best_move_in(v, moves.drop_last(), depth, ply);
        if let Some(m) = best_move(v, moves.drop_last(), depth, ply) {
            let i = choose|i: int| 0 <= i < moves.drop_last().len() && moves.drop_last()[i] == m;
            assert(moves[i] == m);
        }
        assert(moves[moves.len() - 1] == moves.last());
    }
}

/// A legal move does not pack to zero, which stands for no move.
proof fn lemma_legal_encoding(v: BoardView, m: Move)
    requires
        legal(v, m),
    ensures
        encode(m) != 0,
{
}

/// Extending the list of moves by one keeps the best move unless the new
/// move scores better.
proof fn lemma_best_move_push(v: BoardView, moves: Seq<Move>, m: Move, depth: nat, ply: int)
    ensures
        best_move(v, moves.push(m), depth, ply) == (if -negamax_value(made(v, m), (depth - 1) as nat, ply + 1)
            > best_score(v, moves, depth, ply) {
            Some(m)
        } else {
            best_move(v, moves, depth, ply)
        }),
{
    assert(moves.push(m).drop_last() =~= moves);
}

/// Number of moves a search makes looking `depth` moves ahead: one for
/// every legal move at every position before the last depth.
pub open spec fn tree_size(v: BoardView, depth: nat) -> nat
    decreases depth, 1nat, 0nat,
{
    if depth == 0 {
        0
    } else {
        tree_sum(v, legal_moves(v, false), depth)
    }
}

/// Number of moves a search makes trying the moves, each with what follows it.
pub open spec fn tree_sum(v: BoardView, moves: Seq<Move>, depth: nat) -> nat
    decreases depth, 0nat, moves.len(),
{
    if depth == 0 || moves.len() == 0 {
        0
    } else {
        tree_sum(v, moves.drop_last(), depth) + 1 + tree_size(made(v, moves.last()), (depth - 1) as nat)
    }
}

/// The larger of two numbers.
pub open spec fn larger(a: int, b: int) -> int {
    if a < b {
        b
    } else {
        a
    }
}

/// How many moves below a position a search to `depth` reaches at most.
pub open spec fn reach(v: BoardView, depth: nat) -> nat
    decreases depth, 1nat, 0nat,
{
    if depth == 0 {
        0
    } else {
        reach_of_moves(v, legal_moves(v, false), depth)
    }
}

/// How many moves below a position a search to `depth` reaches at most
/// through the given moves.
pub open spec fn reach_of_moves(v: BoardView, moves: Seq<Move>, depth: nat) -> nat
    decreases depth, 0nat, moves.len(),
{
    if depth == 0 || moves.len() == 0 {
        0
    } else {
        larger(
            reach_of_moves(v, moves.drop_last(), depth) as int,
            1 + reach(made(v, moves.last()), (depth - 1) as nat) as int,
        ) as nat
    }
}

/// Extending the list of moves by one adds what that move reaches.
proof fn lemma_reach_push(v: BoardView, moves: Seq<Move>, m: Move, depth: nat)
    requires
        depth > 0,
    ensures
        reach_of_moves(v, moves.push(m), depth) == larger(
            reach_of_moves(v, moves, depth) as int,
            1 + reach(made(v, m), (depth - 1) as nat) as int,
        ),
{
    assert(moves.push(m).drop_last() =~= moves);
}

/// How many moves below a position searches to depths 1 to `depth` reach at most.
pub open spec fn deepening_reach(v: BoardView, depth: nat) -> int
    decreases depth,
{
    if depth == 0 {
        0
    } else {
        larger(deepening_reach(v, (depth - 1) as nat), reach(v, depth) as int)
    }
}

/// Number of moves made by searching depths 1 to `depth` one after another.
pub open spec fn deepening_size(v: BoardView, depth: nat) -> nat
    decreases depth,
{
    if depth == 0 {
        0
    } else {
        deepening_size(v, (depth - 1) as nat) + tree_size(v, depth)
    }
}

/// Capping a count before adding to it caps the sum.
proof fn lemma_capped_add(a: int, b: int)
    requires
        0 <= a,
        0 <= b,
    ensures
        capped(capped(a) + b) == capped(a + b),
{
}

/// Extending the list of moves by one adds that move and what follows it.
proof fn lemma_tree_sum_push(v: BoardView, moves: Seq<Move>, m: Move, depth: nat)
    requires
        depth > 0,
    ensures
        tree_sum(v, moves.push(m), depth) == tree_sum(v, moves, depth) + 1 + tree_size(made(v, m), (depth - 1) as nat),
{
    assert(moves.push(m).drop_last() =~= moves);
}

/// Bound on the value of any position the search reaches.
pub open spec fn score_bound() -> int {
    0x80_0000
}

/// The evaluation of a board stays within the score bound.
proof fn lemma_evaluation_bounds(v: BoardView)
    requires
        v.squares.len() == 64,
    ensures
        -score_bound() <= evaluation(v) <= score_bound(),
{
    lemma_blended_bounds(v.squares);
}

/// Values of positions stay within the score bound, and a non-empty list of
/// moves has a best score within it too.
proof fn lemma_negamax_bounds(v: BoardView, depth: nat, ply: int)
    requires
        v.squares.len() == 64,
        0 <= ply,
        ply + depth <= 255,
    ensures
        -score_bound() <= negamax_value(v, depth, ply) <= score_bound(),
    decreases depth, 1nat, 0nat,
{
    if depth == 0 {
        lemma_evaluation_bounds(v);
    } else {
        let moves = legal_moves(v, false);
        lemma_moves_upto_legal(v, false, 32768);
        assert forall|i: int| 0 <= i < moves.len() implies can_make(v, #[trigger] moves[i]) by {
            assert(legal(v, moves[i]));
            lemma_pseudo_legal_can_make(v, moves[i]);
        }
        if moves.len() > 0 {
            lemma_best_score_bounds(v, moves, depth, ply);
        }
    }
}

/// A non-empty list of moves has a best score within the score bound.
proof fn lemma_best_score_bounds(v: BoardView, moves: Seq<Move>, depth: nat, ply: int)
    requires
        v.squares.len() == 64,
        0 <= ply,
        depth > 0,
        ply + depth <= 255,
        forall|i: int| 0 <= i < moves.len() ==> can_make(v, #[trigger] moves[i]),
    ensures
        moves.len() > 0 ==> -score_bound() <= best_score(v, moves, depth, ply) <= score_bound(),
        moves.len() == 0 ==> best_score(v, moves, depth, ply) == LOWEST_SCORE,
    decreases depth, 0nat, moves.len(),
{
    if moves.len() > 0 {
        assert(can_make(v, moves[moves.len() - 1]));
        lemma_made_len(v, moves.last());
        lemma_best_score_bounds(v, moves.drop_last(), depth, ply);
        lemma_negamax_bounds(made(v, moves.last()), (depth - 1) as nat, ply + 1);
    }
}

/// Extending the list of moves by one compares the new move with the best so far.
proof fn lemma_best_score_push(v: BoardView, moves: Seq<Move>, m: Move, depth: nat, ply: int)
    requires
        depth > 0,
    ensures
        best_score(v, moves.push(m), depth, ply) == (if -negamax_value(made(v, m), (depth - 1) as nat, ply + 1)
            > best_score(v, moves, depth, ply) {
            -negamax_value(made(v, m), (depth - 1) as nat, ply + 1)
        } else {
            best_score(v, moves, depth, ply)
        }),
{
    assert(moves.push(m).drop_last() =~= moves);
}

/// A move that can be made moves a piece of the side to move.
pub proof fn lemma_moves_own_piece(board: Board, m: Move)
    requires
        board.wf(),
        can_make(board@, m),
    ensures
        board.spec_friendly_piece_at(m.from.0 as int) is Some,
{
    board.lemma_piece_at(m.from.0 as int);
}

} // verus!

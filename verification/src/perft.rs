//! Perft: counting the leaves of the tree of legal moves, to test move generation.

use vstd::prelude::*;
use crate::board::{Board, BoardView};
use crate::move_data::Move;
use crate::maker::{made, lemma_unmake_inverts_make, lemma_can_make_runs, lemma_can_unmake_runs};
use crate::rules::{legal, legal_moves, moves_upto, listed};
use crate::move_generator::{MoveGenerator, lemma_pseudo_legal_can_make};

verus! {

/// Number of move sequences of length `depth` from the position.
pub open spec fn spec_perft(v: BoardView, depth: nat) -> nat
    decreases depth, 1nat, 0nat,
{
    if depth == 0 {
        1
    } else {
        perft_sum(v, legal_moves(v, false), depth)
    }
}

/// Sum of the perft counts at `depth - 1` after each of the moves.
pub open spec fn perft_sum(v: BoardView, moves: Seq<Move>, depth: nat) -> nat
    decreases depth, 0nat, moves.len(),
{
    if depth == 0 || moves.len() == 0 {
        0
    } else {
        perft_sum(v, moves.drop_last(), depth) + spec_perft(made(v, moves.last()), (depth - 1) as nat)
    }
}

/// Every listed move is legal.
pub proof fn lemma_moves_upto_legal(v: BoardView, captures_only: bool, k: int)
    ensures
        forall|i: int| 0 <= i < moves_upto(v, captures_only, k).len() ==> legal(v, #[trigger] moves_upto(v, captures_only, k)[i]),
    decreases k,
{
    if k > 0 {
        lemma_moves_upto_legal(v, captures_only, k - 1);
        let previous = moves_upto(v, captures_only, k - 1);
        assert forall|i: int| 0 <= i < moves_upto(v, captures_only, k).len() implies legal(
            v,
            #[trigger] moves_upto(v, captures_only, k)[i],
        ) by {
            if i < previous.len() {
                assert(legal(v, previous[i]));
            }
        }
    }
}

/// The sum over a list extended by one move.
proof fn lemma_perft_sum_push(v: BoardView, moves: Seq<Move>, m: Move, depth: nat)
    requires
        depth > 0,
    ensures
        perft_sum(v, moves.push(m), depth) == perft_sum(v, moves, depth) + spec_perft(made(v, m), (depth - 1) as nat),
{
    assert(moves.push(m).drop_last() =~= moves);
}

/// A count, or `u64::MAX` when it is larger.
pub open spec fn capped(count: int) -> int {
    if count <= u64::MAX {
        count
    } else {
        u64::MAX as int
    }
}

/// Adds two counts, stopping at `u64::MAX`.
fn add_capped(a: u64, b: u64) -> (sum: u64)
    ensures
        sum == capped(a + b),
{
    if a <= u64::MAX - b {
        a + b
    } else {
        u64::MAX
    }
}

/// Counts the move sequences of length `depth` from the position, making
/// and taking back each move; a count beyond `u64::MAX` gives `u64::MAX`.
pub fn perft(board: &mut Board, depth: u16) -> (count: u64)
    requires
        old(board).wf(),
        old(board).game_state.half_move_clock + depth < u32::MAX,
    ensures
        count == capped(spec_perft(old(board)@, depth as nat) as int),
        final(board).wf(),
        final(board)@ == old(board)@,
    decreases depth,
{
    if depth == 0 {
        return 1;
    }
    let ghost initial = board@;
    let moves = MoveGenerator::new(board).generate(false);
    proof {
        lemma_moves_upto_legal(initial, false, 32768);
    }
    let mut move_count: u64 = 0;
    let mut i: usize = 0;
    while i < moves.len()
        invariant
            depth > 0,
            board.wf(),
            board@ == initial,
            board.game_state.half_move_clock + depth < u32::MAX,
            moves@ == legal_moves(initial, false),
            forall|j: int| 0 <= j < moves@.len() ==> legal(initial, #[trigger] moves@[j]),
            i <= moves.len(),
            move_count == capped(perft_sum(initial, moves@.subrange(0, i as int), depth as nat) as int),
        decreases moves.len() - i,
    {
        let m = moves[i];
        proof {
            lemma_pseudo_legal_can_make(initial, m);
            lemma_can_make_runs(*board, m);
        }
        let old_state = board.make_move(&m);
        let inner = perft(board, depth - 1);
        proof {
            lemma_unmake_inverts_make(initial, m);
            lemma_can_unmake_runs(*board, m, old_state);
        }
        board.unmake_move(&m, &old_state);
        proof {
            assert(moves@.subrange(0, i + 1) =~= moves@.subrange(0, i as int).push(m));
            lemma_perft_sum_push(initial, moves@.subrange(0, i as int), m, depth as nat);
        }
        move_count = add_capped(move_count, inner);
        i = i + 1;
    }
    proof {
        assert(moves@.subrange(0, moves@.len() as int) =~= moves@);
    }
    move_count
}

/// Starts a perft test: the count for each legal move in generation order,
/// and their total.
pub fn perft_root(board: &mut Board, depth: u16) -> (result: (u64, Vec<(Move, u64)>))
    requires
        old(board).wf(),
        depth >= 1,
        old(board).game_state.half_move_clock + depth < u32::MAX,
    ensures
        result.0 == capped(spec_perft(old(board)@, depth as nat) as int),
        result.1@.len() == legal_moves(old(board)@, false).len(),
        forall|j: int|
            0 <= j < result.1@.len() ==> (#[trigger] result.1@[j]).0 == legal_moves(old(board)@, false)[j]
                && result.1@[j].1 == capped(
                spec_perft(made(old(board)@, legal_moves(old(board)@, false)[j]), (depth - 1) as nat) as int,
            ),
        final(board).wf(),
        final(board)@ == old(board)@,
{
    let ghost initial = board@;
    let moves = MoveGenerator::new(board).generate(false);
    proof {
        lemma_moves_upto_legal(initial, false, 32768);
    }
    let mut move_count: u64 = 0;
    let mut counts: Vec<(Move, u64)> = Vec::new();
    let mut i: usize = 0;
    while i < moves.len()
        invariant
            depth > 0,
            board.wf(),
            board@ == initial,
            board.game_state.half_move_clock + depth < u32::MAX,
            moves@ == legal_moves(initial, false),
            forall|j: int| 0 <= j < moves@.len() ==> legal(initial, #[trigger] moves@[j]),
            i <= moves.len(),
            move_count == capped(perft_sum(initial, moves@.subrange(0, i as int), depth as nat) as int),
            counts@.len() == i,
            forall|j: int|
                0 <= j < i ==> (#[trigger] counts@[j]).0 == moves@[j] && counts@[j].1 == capped(
                    spec_perft(made(initial, moves@[j]), (depth - 1) as nat) as int,
                ),
        decreases moves.len() - i,
    {
        let m = moves[i];
        proof {
            lemma_pseudo_legal_can_make(initial, m);
            lemma_can_make_runs(*board, m);
        }
        let old_state = board.make_move(&m);
        let inner = perft(board, depth - 1);
        proof {
            lemma_unmake_inverts_make(initial, m);
            lemma_can_unmake_runs(*board, m, old_state);
        }
        board.unmake_move(&m, &old_state);
        proof {
            assert(moves@.subrange(0, i + 1) =~= moves@.subrange(0, i as int).push(m));
            lemma_perft_sum_push(initial, moves@.subrange(0, i as int), m, depth as nat);
        }
        move_count = add_capped(move_count, inner);
        counts.push((m, inner));
        i = i + 1;
    }
    proof {
        assert(moves@.subrange(0, moves@.len() as int) =~= moves@);
    }
    (move_count, counts)
}

} // verus!

//! The keys of the positions played so far, to detect repeated positions.

use vstd::prelude::*;
use crate::zobrist::Zobrist;

verus! {

/// Keys of earlier positions, oldest first.
pub struct RepetitionTable {
    positions: Vec<Zobrist>,
}

/// Whether `key` equals the key `k` places back in `positions` (counting the
/// last one as place 0) for some odd `k` from 3 up to, but not including,
/// `half_move_clock`: an earlier position with the same side to move since the
/// last irreversible move, at least four plies ago.
pub open spec fn spec_contains(positions: Seq<Zobrist>, key: Zobrist, half_move_clock: int) -> bool {
    half_move_clock >= 4 && exists|k: int|
        3 <= k < half_move_clock && k < positions.len() && k % 2 == 1 && #[trigger] positions[positions.len()
            - 1 - k] == key
}

impl RepetitionTable {
    /// The stored keys, oldest first.
    pub closed spec fn view(&self) -> Seq<Zobrist> {
        self.positions@
    }

    /// An empty table.
    pub fn new() -> (table: RepetitionTable)
        ensures
            table@ == Seq::<Zobrist>::empty(),
    {
        RepetitionTable { positions: Vec::new() }
    }

    /// Records a position.
    pub fn push(&mut self, zobrist_key: Zobrist)
        ensures
            final(self)@ == old(self)@.push(zobrist_key),
    {
        self.positions.push(zobrist_key);
    }

    /// Forgets the last recorded position and returns it.
    pub fn pop(&mut self) -> (key: Zobrist)
        requires
            old(self)@.len() > 0,
        ensures
            key == old(self)@.last(),
            final(self)@ == old(self)@.drop_last(),
    {
        self.positions.pop().unwrap()
    }

    /// Whether the position with the given key, reached after
    /// `half_move_clock` reversible moves, repeats an earlier one.
    pub fn contains(&self, zobrist_key: Zobrist, half_move_clock: u32) -> (repeated: bool)
        ensures
            repeated == spec_contains(self@, zobrist_key, half_move_clock as int),
    {
        if half_move_clock < 4 {
            return false;
        }
        let len = self.positions.len();
        let limit: usize = if (half_move_clock as u64) < (len as u64) {
            half_move_clock as usize
        } else {
            len
        };
        let mut k: usize = 3;
        while k < limit
            invariant
                len == self@.len(),
                limit <= len,
                limit <= half_move_clock,
                limit == len || limit == half_move_clock,
                3 <= k,
                k <= limit + 3,
                k % 2 == 1,
                forall|j: int| 3 <= j < k && j % 2 == 1 ==> #[trigger] self@[len - 1 - j] != zobrist_key,
            decreases limit + 3 - k,
        {
            if self.positions[len - 1 - k] == zobrist_key {
                return true;
            }
            k = k + 2;
        }
        proof {
            assert forall|j: int|
                3 <= j < half_move_clock && j < len && j % 2 == 1 implies #[trigger] self@[len - 1 - j]
                != zobrist_key by {
                assert(j < k);
            }
        }
        false
    }

    /// Forgets all positions.
    pub fn clear(&mut self)
        ensures
            final(self)@ == Seq::<Zobrist>::empty(),
    {
        self.positions.clear();
    }
}

/// Popping right after pushing a key gives the key back and leaves the keys
/// as they were.
pub proof fn lemma_push_pop(positions: Seq<Zobrist>, key: Zobrist)
    ensures
        positions.push(key).len() > 0,
        positions.push(key).last() == key,
        positions.push(key).drop_last() == positions,
{
    assert(positions.push(key).drop_last() =~= positions);
}

} // verus!

//! The principal variation: the best line of moves found at every ply, kept
//! in a triangular table where row `p` holds the line starting at ply `p`.

use vstd::prelude::*;
use crate::encoded_move::EncodedMove;

verus! {

/// Search depth in plies.
pub type Ply = u8;

/// Number of plies the table holds (`Ply::MAX`).
pub const PLIES: usize = 255;

/// Best lines of moves, one per ply.
pub struct Pv {
    /// `PLIES` rows of `PLIES` moves each, row after row.
    pv_table: Vec<EncodedMove>,
    /// Length of the line of each row.
    pv_length: Vec<Ply>,
}

/// Distinct table positions are distinct entries.
proof fn lemma_position(r: int, c: int, r2: int, c2: int)
    requires
        0 <= r < PLIES,
        0 <= c < PLIES,
        0 <= r2 < PLIES,
        0 <= c2 < PLIES,
    ensures
        0 <= r * PLIES + c < PLIES * PLIES,
        (r * PLIES + c == r2 * PLIES + c2) == (r == r2 && c == c2),
{
    assert(0 <= r * PLIES + c < PLIES * PLIES) by (nonlinear_arith)
        requires
            0 <= r < PLIES,
            0 <= c < PLIES,
    ;
}

impl Pv {
    /// The table has its full size.
    pub open spec fn wf(&self) -> bool {
        &&& self.table().len() == PLIES * PLIES
        &&& self.lengths().len() == PLIES
    }

    /// All entries, row after row.
    pub closed spec fn table(&self) -> Seq<EncodedMove> {
        self.pv_table@
    }

    /// Line length of every row.
    pub closed spec fn lengths(&self) -> Seq<Ply> {
        self.pv_length@
    }

    /// Move `column` of the line stored at row `row`.
    pub open spec fn entry(&self, row: int, column: int) -> EncodedMove {
        self.table()[row * PLIES + column]
    }

    /// Length of the line stored at row `row`.
    pub open spec fn length(&self, row: int) -> int {
        self.lengths()[row] as int
    }

    /// An empty table: no moves, every line of length zero.
    pub fn new() -> (pv: Pv)
        ensures
            pv.wf(),
            forall|r: int, c: int| 0 <= r < PLIES && 0 <= c < PLIES ==> (#[trigger] pv.entry(r, c)).0 == 0,
            forall|r: int| 0 <= r < PLIES ==> #[trigger] pv.length(r) == 0,
    {
        let pv_table = vec![EncodedMove::none(); PLIES * PLIES];
        let pv_length = vec![0u8; PLIES];
        let pv = Pv { pv_table, pv_length };
        assert forall|r: int, c: int| 0 <= r < PLIES && 0 <= c < PLIES implies (#[trigger] pv.entry(
            r,
            c,
        )).0 == 0 by {
            assert(0 <= r * PLIES + c < PLIES * PLIES) by (nonlinear_arith)
                requires
                    0 <= r < PLIES,
                    0 <= c < PLIES,
            ;
        }
        pv
    }

    /// The best sequence of moves from the root.
    pub fn best_line(&self) -> (line: Vec<EncodedMove>)
        requires
            self.wf(),
        ensures
            line@.len() == self.length(0),
            forall|c: int| 0 <= c < self.length(0) ==> line@[c] == #[trigger] self.entry(0, c),
    {
        let length = self.pv_length[0] as usize;
        let mut line = Vec::new();
        let mut c: usize = 0;
        while c < length
            invariant
                self.wf(),
                length == self.length(0),
                c <= length,
                line@.len() == c,
                forall|k: int| 0 <= k < c ==> line@[k] == #[trigger] self.entry(0, k),
            decreases length - c,
        {
            line.push(self.pv_table[c]);
            c = c + 1;
        }
        line
    }

    /// The best move at the root.
    pub fn root_best_move(&self) -> (best: EncodedMove)
        requires
            self.wf(),
        ensures
            best == self.entry(0, 0),
    {
        self.pv_table[0]
    }

    /// The best reply to the best root move, if the line is that long.
    pub fn root_best_reply(&self) -> (reply: EncodedMove)
        requires
            self.wf(),
        ensures
            reply == (if self.length(0) >= 2 {
                self.entry(0, 1)
            } else {
                EncodedMove(0)
            }),
    {
        if self.pv_length[0] >= 2 {
            self.pv_table[1]
        } else {
            EncodedMove::none()
        }
    }

    /// Sets the length of the line at a ply.
    pub fn set_pv_length(&mut self, ply_from_root: Ply, length: Ply)
        requires
            old(self).wf(),
            ply_from_root < PLIES,
        ensures
            final(self).wf(),
            final(self).table() == old(self).table(),
            final(self).lengths() == old(self).lengths().update(ply_from_root as int, length),
    {
        self.pv_length[ply_from_root as usize] = length;
    }

    /// Stores a new best move at a ply: the line at that ply becomes the move
    /// followed by the line of the next ply.
    pub fn update_move(&mut self, ply_from_root: Ply, encoded_move_data: EncodedMove)
        requires
            old(self).wf(),
            ply_from_root + 1 < PLIES,
        ensures
            final(self).wf(),
            final(self).entry(ply_from_root as int, ply_from_root as int) == encoded_move_data,
            forall|c: int|
                ply_from_root < c < old(self).length(ply_from_root + 1) ==> #[trigger] final(self).entry(
                    ply_from_root as int,
                    c,
                ) == old(self).entry(ply_from_root + 1, c),
            forall|r: int, c: int|
                0 <= r < PLIES && 0 <= c < PLIES && !(r == ply_from_root && (c == ply_from_root || (
                ply_from_root < c < old(self).length(ply_from_root + 1)))) ==> #[trigger] final(self).entry(
                    r,
                    c,
                ) == old(self).entry(r, c),
            final(self).lengths() == old(self).lengths().update(
                ply_from_root as int,
                old(self).lengths()[ply_from_root + 1],
            ),
    {
        let ply = ply_from_root as usize;
        let ghost initial = *self;
        proof {
            lemma_position(ply as int, ply as int, 0, 0);
        }
        self.pv_table.set(ply * PLIES + ply, encoded_move_data);
        let ghost before = *self;
        proof {
            assert forall|r: int, c: int| 0 <= r < PLIES && 0 <= c < PLIES implies #[trigger] before.entry(r, c)
                == (if r == ply && c == ply { encoded_move_data } else { initial.entry(r, c) }) by {
                lemma_position(r, c, ply as int, ply as int);
            }
        }
        let end = self.pv_length[ply + 1] as usize;
        let mut next_ply = ply + 1;
        while next_ply < end
            invariant
                ply + 1 < PLIES,
                end == before.length(ply + 1),
                end <= PLIES,
                ply + 1 <= next_ply,
                next_ply == ply + 1 || next_ply <= end,
                self.table().len() == PLIES * PLIES,
                self.lengths() == before.lengths(),
                self.entry(ply as int, ply as int) == encoded_move_data,
                forall|c: int| ply < c < next_ply ==> #[trigger] self.entry(ply as int, c) == before.entry(
                    ply + 1,
                    c,
                ),
                forall|r: int, c: int|
                    0 <= r < PLIES && 0 <= c < PLIES && !(r == ply && (c == ply || (ply < c < next_ply)))
                        ==> #[trigger] self.entry(r, c) == before.entry(r, c),
            decreases end - next_ply,
        {
            proof {
                lemma_position(ply + 1, next_ply as int, 0, 0);
                lemma_position(ply as int, next_ply as int, 0, 0);
            }
            let value = self.pv_table[(ply + 1) * PLIES + next_ply];
            let ghost previous = *self;
            self.pv_table.set(ply * PLIES + next_ply, value);
            proof {
                assert forall|r: int, c: int| 0 <= r < PLIES && 0 <= c < PLIES implies #[trigger] self.entry(r, c)
                    == (if r == ply && c == next_ply { value } else { previous.entry(r, c) }) by {
                    lemma_position(r, c, ply as int, next_ply as int);
                }
                assert(previous.entry(ply + 1, next_ply as int) == value);
                assert(previous.entry(ply + 1, next_ply as int) == before.entry(ply + 1, next_ply as int));
            }
            next_ply = next_ply + 1;
        }
        let ghost looped = *self;
        self.pv_length.set(ply, self.pv_length[ply + 1]);
        proof {
            assert(self.table() == looped.table());
            assert forall|c: int| ply_from_root < c < initial.length(ply_from_root + 1) implies #[trigger] self.entry(
                ply_from_root as int,
                c,
            ) == initial.entry(ply_from_root + 1, c) by {
                assert(before.entry(ply + 1, c) == initial.entry(ply + 1, c));
                assert(looped.entry(ply as int, c) == before.entry(ply + 1, c));
            }
            assert forall|r: int, c: int|
                0 <= r < PLIES && 0 <= c < PLIES && !(r == ply_from_root && (c == ply_from_root || (
                ply_from_root < c < initial.length(ply_from_root + 1)))) implies #[trigger] self.entry(r, c)
                == initial.entry(r, c) by {
                assert(before.entry(r, c) == initial.entry(r, c));
                assert(looped.entry(r, c) == before.entry(r, c));
            }
        }
    }
}

impl Default for Pv {
    /// An empty table (see `Pv::new`).
    fn default() -> (pv: Pv)
        ensures
            pv.wf(),
            forall|r: int, c: int| 0 <= r < PLIES && 0 <= c < PLIES ==> (#[trigger] pv.entry(r, c)).0 == 0,
            forall|r: int| 0 <= r < PLIES ==> #[trigger] pv.length(r) == 0,
    {
        Pv::new()
    }
}

} // verus!

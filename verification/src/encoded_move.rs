//! Moves packed into 16 bits: 6 bits of start square, 6 of target square, 3 of flag.

use vstd::prelude::*;
use crate::square::Square;
use crate::move_data::{Flag, Move, flag_index, flag_from_index};

verus! {

/// A move packed into 16 bits; zero stands for no move.
#[derive(Clone, Copy, PartialEq, Eq, Structural, Debug, Hash)]
pub struct EncodedMove(pub u16);

/// The packed form of a move.
pub open spec fn encode(move_data: Move) -> int {
    move_data.from.0 + 64 * move_data.to.0 + 4096 * flag_index(move_data.flag)
}

/// The move that packed data stands for.
pub open spec fn decode(data: u16) -> Move {
    Move {
        from: Square((data % 64) as u8),
        to: Square(((data / 64) % 64) as u8),
        flag: flag_from_index(((data / 4096) % 8) as int),
    }
}

/// Unpacking a packed move gives the move back.
pub proof fn lemma_decode_encode(move_data: Move)
    requires
        move_data.is_valid(),
    ensures
        0 <= encode(move_data) < 32768,
        decode(encode(move_data) as u16) == move_data,
{
    let e = encode(move_data);
    let f = flag_index(move_data.flag);
    assert(0 <= f < 8);
    assert(e % 64 == move_data.from.0);
    assert((e / 64) % 64 == move_data.to.0);
    assert((e / 4096) % 8 == f);
}

/// Two valid moves with the same packed form are the same move.
pub proof fn lemma_encode_injective(a: Move, b: Move)
    requires
        a.is_valid(),
        b.is_valid(),
        encode(a) == encode(b),
    ensures
        a == b,
{
    lemma_decode_encode(a);
    lemma_decode_encode(b);
}

impl EncodedMove {
    /// No move.
    pub fn none() -> (encoded: EncodedMove)
        ensures
            encoded.0 == 0,
    {
        EncodedMove(0)
    }

    /// Packs a move.
    pub fn new(move_data: Move) -> (encoded: EncodedMove)
        requires
            move_data.is_valid(),
        ensures
            encoded.0 == encode(move_data),
            decode(encoded.0) == move_data,
    {
        proof {
            lemma_decode_encode(move_data);
        }
        EncodedMove(
            move_data.from.0 as u16 + move_data.to.0 as u16 * 64 + move_data.flag.index() * 4096,
        )
    }

    /// Unpacks the move.
    pub fn decode(self) -> (move_data: Move)
        ensures
            move_data == decode(self.0),
            move_data.is_valid(),
    {
        Move {
            from: Square((self.0 % 64) as u8),
            to: Square(((self.0 / 64) % 64) as u8),
            flag: Flag::from_index((self.0 / 4096) % 8),
        }
    }

    /// Whether it stands for no move.
    pub fn is_none(self) -> (none: bool)
        ensures
            none == (self.0 == 0),
    {
        self.0 == 0
    }
}

} // verus!

//! Sets of squares stored as the bits of a 64-bit integer (bit `i` for square `i`).

use vstd::prelude::*;
use crate::square::Square;

verus! {

/// A set of squares: square `i` is in the set when bit `i` is one.
#[derive(Clone, Copy, PartialEq, Eq, Structural, Debug, Hash)]
pub struct BitBoard(pub u64);

/// Whether bit `i` of `b` is one.
pub open spec fn bit_set(b: u64, i: u64) -> bool {
    (b >> i) & 1u64 == 1u64
}

/// Flipping bit `s` changes bit `s` and no other.
pub proof fn lemma_xor_bit(b: u64, s: u64, i: u64)
    requires
        s < 64,
        i < 64,
    ensures
        bit_set(b ^ (1u64 << s), i) == (if i == s { !bit_set(b, i) } else { bit_set(b, i) }),
{
    assert(bit_set(b ^ (1u64 << s), i) == (if i == s { !bit_set(b, i) } else { bit_set(b, i) }))
        by (bit_vector)
        requires
            s < 64,
            i < 64,
    ;
}

/// Setting bit `s` makes bit `s` one and changes no other.
pub proof fn lemma_or_bit(b: u64, s: u64, i: u64)
    requires
        s < 64,
        i < 64,
    ensures
        bit_set(b | (1u64 << s), i) == (i == s || bit_set(b, i)),
{
    assert(bit_set(b | (1u64 << s), i) == (i == s || bit_set(b, i))) by (bit_vector)
        requires
            s < 64,
            i < 64,
    ;
}

/// An integer whose bits from `n` upward are all zero, and whose bit `n - 1`
/// is zero, has all bits from `n - 1` upward zero.
proof fn lemma_shift_step(c: u64, n: u64)
    requires
        1 <= n <= 64,
        c >> n == 0,
        !bit_set(c, (n - 1) as u64),
    ensures
        c >> ((n - 1) as u64) == 0,
{
    assert(c >> ((n - 1) as u64) == 0) by (bit_vector)
        requires
            1 <= n <= 64,
            c >> n == 0,
            (c >> ((n - 1) as u64)) & 1u64 != 1u64,
    ;
}

/// An integer whose bits below `n` are all zero and whose higher bits are zero is zero.
proof fn lemma_zero_from(c: u64, n: u64)
    requires
        n <= 64,
        c >> n == 0,
        forall|i: u64| i < n ==> !#[trigger] bit_set(c, i),
    ensures
        c == 0,
    decreases n,
{
    if n == 0 {
        assert(c >> 0u64 == c) by (bit_vector);
    } else {
        lemma_shift_step(c, n);
        lemma_zero_from(c, (n - 1) as u64);
    }
}

/// Two integers whose 64 bits agree are equal.
pub proof fn lemma_bits_extensional(a: u64, b: u64)
    requires
        forall|i: u64| i < 64 ==> #[trigger] bit_set(a, i) == bit_set(b, i),
    ensures
        a == b,
{
    let c = a ^ b;
    assert forall|i: u64| i < 64 implies !#[trigger] bit_set(c, i) by {
        assert(bit_set(a, i) == bit_set(b, i));
        assert(bit_set(a, i) == bit_set(b, i) ==> !bit_set(a ^ b, i)) by (bit_vector);
    }
    assert(c >> 64u64 == 0) by (bit_vector);
    lemma_zero_from(c, 64);
    assert(a ^ b == 0 ==> a == b) by (bit_vector);
}

/// No bit of zero is one.
pub proof fn lemma_zero_bits(i: u64)
    requires
        i < 64,
    ensures
        !bit_set(0, i),
{
    assert(!bit_set(0, i)) by (bit_vector)
        requires
            i < 64,
    ;
}

impl BitBoard {
    /// Whether square `i` is in the set.
    pub open spec fn has(self, i: int) -> bool {
        0 <= i < 64 && bit_set(self.0, i as u64)
    }

    /// Whether the square is in the set.
    pub fn get(&self, square: &Square) -> (present: bool)
        requires
            square.is_valid(),
        ensures
            present == self.has(square.0 as int),
    {
        (self.0 >> square.0) & 1 == 1
    }

    /// Adds the square if absent, removes it if present.
    pub fn toggle(&mut self, square: &Square)
        requires
            square.is_valid(),
        ensures
            final(self).0 == old(self).0 ^ (1u64 << square.0),
            forall|i: int|
                #![trigger final(self).has(i)]
                0 <= i < 64 ==> final(self).has(i) == (if i == square.0 {
                    !old(self).has(i)
                } else {
                    old(self).has(i)
                }),
    {
        let ghost b = self.0;
        self.0 = self.0 ^ (1u64 << square.0);
        proof {
            assert forall|i: int| 0 <= i < 64 implies #[trigger] self.has(i) == (if i == square.0 {
                !bit_set(b, i as u64)
            } else {
                bit_set(b, i as u64)
            }) by {
                lemma_xor_bit(b, square.0 as u64, i as u64);
            }
        }
    }

    /// Adds the square.
    pub fn set(&mut self, square: &Square)
        requires
            square.is_valid(),
        ensures
            final(self).0 == old(self).0 | (1u64 << square.0),
            forall|i: int|
                #![trigger final(self).has(i)]
                0 <= i < 64 ==> final(self).has(i) == (i == square.0 || old(self).has(i)),
    {
        let ghost b = self.0;
        self.0 = self.0 | (1u64 << square.0);
        proof {
            assert forall|i: int| 0 <= i < 64 implies #[trigger] self.has(i) == (i == square.0
                || bit_set(b, i as u64)) by {
                lemma_or_bit(b, square.0 as u64, i as u64);
            }
        }
    }

    /// Toggles two squares (a piece moving from one to the other).
    pub fn toggle_two(&mut self, a: &Square, b: &Square)
        requires
            a.is_valid(),
            b.is_valid(),
        ensures
            final(self).0 == old(self).0 ^ (1u64 << a.0) ^ (1u64 << b.0),
            forall|i: int|
                #![trigger final(self).has(i)]
                0 <= i < 64 ==> final(self).has(i) == (if (i == a.0) != (i == b.0) {
                    !old(self).has(i)
                } else {
                    old(self).has(i)
                }),
    {
        self.toggle(a);
        self.toggle(b);
    }

    /// Number of squares in the set.
    pub fn count(&self) -> (count: u32)
        ensures
            count == spec_count(self.0, 64),
            count <= 64,
    {
        let mut count: u32 = 0;
        let mut i: u64 = 0;
        while i < 64
            invariant
                i <= 64,
                count == spec_count(self.0, i as int),
                count <= i,
            decreases 64 - i,
        {
            if (self.0 >> i) & 1 == 1 {
                count = count + 1;
            }
            i = i + 1;
        }
        count
    }
}

/// Number of one bits among the lowest `n` bits of `b`.
pub open spec fn spec_count(b: u64, n: int) -> nat
    decreases n,
{
    if n <= 0 {
        0
    } else {
        spec_count(b, n - 1) + if bit_set(b, (n - 1) as u64) { 1nat } else { 0nat }
    }
}

} // verus!

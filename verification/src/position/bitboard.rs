//! A set of board squares packed into one 64-bit word.

use std::ops::{
    BitAnd, BitAndAssign, BitOr, BitOrAssign, BitXor, BitXorAssign, Not, Shl, ShlAssign, Shr,
    ShrAssign,
};
use vstd::prelude::*;
use vstd::std_specs::ops::{BitAndSpec, BitOrSpec, BitXorSpec, NotSpec, ShlSpec, ShrSpec};

verus! {

/// An integer representation of a chess board.
///
/// A bitboard is a row of 64 flags stored as one integer: bit `i` is set when
/// the square with index `i` is occupied. It says nothing of what stands
/// there, so a caller keeps one bitboard for each kind of piece and each
/// color. The word is public: any 64-bit pattern is a bitboard, and relating
/// a bit to a square is left to the caller.
#[derive(Debug, PartialEq, Eq, PartialOrd, Ord, Clone, Copy, Structural)]
pub struct BitBoard(pub u64);

impl BitBoard {
    /// Whether the bit at position `i` is set. No position from 64 on is.
    pub open spec fn is_set(self, i: nat) -> bool {
        i < 64 && (self.0 >> (i as u64)) & 1 == 1
    }

    /// The positions that a bitboard can hold: 0 to 63.
    pub open spec fn positions() -> Set<nat> {
        Set::new(|i: nat| i < 64)
    }
}

/// A bitboard is read as the set of the positions whose bits are set.
impl View for BitBoard {
    type V = Set<nat>;

    open spec fn view(&self) -> Set<nat> {
        Set::new(|i: nat| self.is_set(i))
    }
}

proof fn lemma_and_bit(a: u64, b: u64, i: u64)
    by (bit_vector)
    requires
        i < 64,
    ensures
        ((a & b) >> i) & 1 == 1 <==> (a >> i) & 1 == 1 && (b >> i) & 1 == 1,
{
}

proof fn lemma_or_bit(a: u64, b: u64, i: u64)
    by (bit_vector)
    requires
        i < 64,
    ensures
        ((a | b) >> i) & 1 == 1 <==> (a >> i) & 1 == 1 || (b >> i) & 1 == 1,
{
}

proof fn lemma_xor_bit(a: u64, b: u64, i: u64)
    by (bit_vector)
    requires
        i < 64,
    ensures
        ((a ^ b) >> i) & 1 == 1 <==> ((a >> i) & 1 == 1) != ((b >> i) & 1 == 1),
{
}

proof fn lemma_not_bit(a: u64, i: u64)
    by (bit_vector)
    requires
        i < 64,
    ensures
        ((!a) >> i) & 1 == 1 <==> (a >> i) & 1 != 1,
{
}

proof fn lemma_shl_bit_low(a: u64, k: u64, i: u64)
    by (bit_vector)
    requires
        k < 64,
        i < k,
    ensures
        ((a << k) >> i) & 1 == 0,
{
}

proof fn lemma_shl_bit_high(a: u64, k: u64, i: u64, j: u64)
    by (bit_vector)
    requires
        k < 64,
        i < 64,
        j < 64,
        i == j + k,
    ensures
        ((a << k) >> i) & 1 == (a >> j) & 1,
{
}

proof fn lemma_shr_bit_low(a: u64, k: u64, i: u64, j: u64)
    by (bit_vector)
    requires
        k < 64,
        i < 64,
        j < 64,
        j == i + k,
    ensures
        ((a >> k) >> i) & 1 == (a >> j) & 1,
{
}

proof fn lemma_shr_bit_high(a: u64, k: u64, i: u64)
    by (bit_vector)
    requires
        k < 64,
        i < 64,
        i + k >= 64,
    ensures
        ((a >> k) >> i) & 1 == 0,
{
}

proof fn lemma_difference_at_or_above(a: u64, b: u64, k: u64)
    by (bit_vector)
    requires
        k < 64,
        a >> k != b >> k,
    ensures
        ((a >> k) & 1 == 1) != ((b >> k) & 1 == 1) || (k < 63 && a >> ((k + 1) as u64) != b
            >> ((k + 1) as u64)),
{
}

/// Two words that differ from bit `k` upwards differ in one bit, which is
/// the result.
proof fn lemma_differing_bit(a: u64, b: u64, k: u64) -> (i: u64)
    requires
        k < 64,
        a >> k != b >> k,
    ensures
        i < 64,
        ((a >> i) & 1 == 1) != ((b >> i) & 1 == 1),
    decreases 64 - k,
{
    lemma_difference_at_or_above(a, b, k);
    if ((a >> k) & 1 == 1) != ((b >> k) & 1 == 1) {
        k
    } else {
        lemma_differing_bit(a, b, (k + 1) as u64)
    }
}

impl BitBoard {
    /// A bitboard is no more than the set it is read as: two bitboards with
    /// the same positions are the same bitboard.
    pub proof fn lemma_view_injective(a: BitBoard, b: BitBoard)
        requires
            a@ == b@,
        ensures
            a == b,
    {
        if a.0 != b.0 {
            let x = a.0;
            let y = b.0;
            assert(x >> 0 == x && y >> 0 == y) by (bit_vector);
            let i = lemma_differing_bit(x, y, 0);
            assert(a.is_set(i as nat) != b.is_set(i as nat));
            assert(a@.contains(i as nat) == a.is_set(i as nat));
            assert(b@.contains(i as nat) == b.is_set(i as nat));
        }
    }

    /// The bits set in `a & b` are those set in both: the operator is the
    /// intersection of the two sets.
    pub proof fn lemma_and_is_intersection(a: BitBoard, b: BitBoard)
        ensures
            BitBoard(a.0 & b.0)@ == a@.intersect(b@),
    {
        let r = BitBoard(a.0 & b.0);
        assert forall|i: nat| r@.contains(i) <==> a@.intersect(b@).contains(i) by {
            if i < 64 {
                lemma_and_bit(a.0, b.0, i as u64);
            }
        }
        assert(r@ =~= a@.intersect(b@));
    }

    /// The bits set in `a | b` are those set in either: the operator is the
    /// union of the two sets.
    pub proof fn lemma_or_is_union(a: BitBoard, b: BitBoard)
        ensures
            BitBoard(a.0 | b.0)@ == a@.union(b@),
    {
        let r = BitBoard(a.0 | b.0);
        assert forall|i: nat| r@.contains(i) <==> a@.union(b@).contains(i) by {
            if i < 64 {
                lemma_or_bit(a.0, b.0, i as u64);
            }
        }
        assert(r@ =~= a@.union(b@));
    }

    /// The bits set in `a ^ b` are those set in exactly one of the two: the
    /// operator is the symmetric difference of the two sets. In particular
    /// `a ^ a` is empty, and `a ^ b` is so only where `a` and `b` are equal
    /// as sets.
    pub proof fn lemma_xor_is_symmetric_difference(a: BitBoard, b: BitBoard)
        ensures
            BitBoard(a.0 ^ b.0)@ == a@.difference(b@).union(b@.difference(a@)),
            BitBoard(a.0 ^ a.0)@ == Set::<nat>::empty(),
    {
        let r = BitBoard(a.0 ^ b.0);
        let expected = a@.difference(b@).union(b@.difference(a@));
        assert forall|i: nat| r@.contains(i) <==> expected.contains(i) by {
            if i < 64 {
                lemma_xor_bit(a.0, b.0, i as u64);
            }
        }
        assert(r@ =~= expected);
        let s = BitBoard(a.0 ^ a.0);
        assert forall|i: nat| !s@.contains(i) by {
            if i < 64 {
                lemma_xor_bit(a.0, a.0, i as u64);
            }
        }
        assert(s@ =~= Set::<nat>::empty());
    }

    /// The bits set in `!a` are those of the 64 that are not set in `a`: the
    /// operator is the complement within the 64 positions.
    pub proof fn lemma_not_is_complement(a: BitBoard)
        ensures
            BitBoard(!a.0)@ == BitBoard::positions().difference(a@),
    {
        let r = BitBoard(!a.0);
        let expected = BitBoard::positions().difference(a@);
        assert forall|i: nat| r@.contains(i) <==> expected.contains(i) by {
            if i < 64 {
                lemma_not_bit(a.0, i as u64);
            }
        }
        assert(r@ =~= expected);
    }

    /// A left shift by `k` moves every position up by `k` and drops those that
    /// would pass 63; the `k` lowest positions are left empty.
    pub proof fn lemma_shl_moves_up(a: BitBoard, k: BitBoard)
        requires
            k.0 < 64,
        ensures
            forall|i: nat|
                #[trigger] BitBoard(a.0 << k.0)@.contains(i) <==> k.0 <= i < 64 && a@.contains(
                    (i - k.0) as nat,
                ),
    {
        let r = BitBoard(a.0 << k.0);
        assert forall|i: nat| #[trigger]
            r@.contains(i) <==> k.0 <= i < 64 && a@.contains((i - k.0) as nat) by {
            if i < 64 {
                if i < k.0 {
                    lemma_shl_bit_low(a.0, k.0, i as u64);
                } else {
                    lemma_shl_bit_high(a.0, k.0, i as u64, (i - k.0) as u64);
                }
            }
        }
    }

    /// A right shift by `k` moves every position down by `k` and drops those
    /// below `k`; the `k` highest positions are left empty.
    pub proof fn lemma_shr_moves_down(a: BitBoard, k: BitBoard)
        requires
            k.0 < 64,
        ensures
            forall|i: nat|
                #[trigger] BitBoard(a.0 >> k.0)@.contains(i) <==> a@.contains((i + k.0) as nat),
    {
        let r = BitBoard(a.0 >> k.0);
        assert forall|i: nat| #[trigger] r@.contains(i) <==> a@.contains((i + k.0) as nat) by {
            if i < 64 {
                if i + k.0 < 64 {
                    lemma_shr_bit_low(a.0, k.0, i as u64, (i + k.0) as u64);
                } else {
                    lemma_shr_bit_high(a.0, k.0, i as u64);
                }
            }
        }
    }
}

impl vstd::std_specs::ops::BitAndSpecImpl for BitBoard {
    open spec fn obeys_bitand_spec() -> bool {
        true
    }

    open spec fn bitand_req(self, rhs: Self) -> bool {
        true
    }

    open spec fn bitand_spec(self, rhs: Self) -> Self {
        BitBoard(self.0 & rhs.0)
    }
}

impl BitAnd for BitBoard {
    type Output = Self;

    /// The squares that are in both bitboards.
    fn bitand(self, rhs: Self) -> (r: Self)
        ensures
            r.0 == self.0 & rhs.0,
            r@ == self@.intersect(rhs@),
    {
        proof {
            BitBoard::lemma_and_is_intersection(self, rhs);
        }
        BitBoard(self.0 & rhs.0)
    }
}

impl BitAndAssign for BitBoard {
    /// Keeps in the receiver the squares that are also in `rhs`, as `&` does.
    fn bitand_assign(&mut self, rhs: Self)
        ensures
            *final(self) == old(self).bitand_spec(rhs),
            final(self).0 == old(self).0 & rhs.0,
            final(self)@ == old(self)@.intersect(rhs@),
    {
        proof {
            BitBoard::lemma_and_is_intersection(*self, rhs);
        }
        self.0 = self.0 & rhs.0;
    }
}

impl vstd::std_specs::ops::BitOrSpecImpl for BitBoard {
    open spec fn obeys_bitor_spec() -> bool {
        true
    }

    open spec fn bitor_req(self, rhs: Self) -> bool {
        true
    }

    open spec fn bitor_spec(self, rhs: Self) -> Self {
        BitBoard(self.0 | rhs.0)
    }
}

impl BitOr for BitBoard {
    type Output = Self;

    /// The squares that are in either bitboard.
    fn bitor(self, rhs: Self) -> (r: Self)
        ensures
            r.0 == self.0 | rhs.0,
            r@ == self@.union(rhs@),
    {
        proof {
            BitBoard::lemma_or_is_union(self, rhs);
        }
        BitBoard(self.0 | rhs.0)
    }
}

impl BitOrAssign for BitBoard {
    /// Adds to the receiver the squares that are in `rhs`, as `|` does.
    fn bitor_assign(&mut self, rhs: Self)
        ensures
            *final(self) == old(self).bitor_spec(rhs),
            final(self).0 == old(self).0 | rhs.0,
            final(self)@ == old(self)@.union(rhs@),
    {
        proof {
            BitBoard::lemma_or_is_union(*self, rhs);
        }
        self.0 = self.0 | rhs.0;
    }
}

impl vstd::std_specs::ops::BitXorSpecImpl for BitBoard {
    open spec fn obeys_bitxor_spec() -> bool {
        true
    }

    open spec fn bitxor_req(self, rhs: Self) -> bool {
        true
    }

    open spec fn bitxor_spec(self, rhs: Self) -> Self {
        BitBoard(self.0 ^ rhs.0)
    }
}

impl BitXor for BitBoard {
    type Output = Self;

    /// The squares that are in exactly one of the two bitboards.
    fn bitxor(self, rhs: Self) -> (r: Self)
        ensures
            r.0 == self.0 ^ rhs.0,
            r@ == self@.difference(rhs@).union(rhs@.difference(self@)),
    {
        proof {
            BitBoard::lemma_xor_is_symmetric_difference(self, rhs);
        }
        BitBoard(self.0 ^ rhs.0)
    }
}

impl BitXorAssign for BitBoard {
    /// Leaves in the receiver the squares that are in exactly one of the receiver
    /// and `rhs`, as `^` does.
    fn bitxor_assign(&mut self, rhs: Self)
        ensures
            *final(self) == old(self).bitxor_spec(rhs),
            final(self).0 == old(self).0 ^ rhs.0,
            final(self)@ == old(self)@.difference(rhs@).union(rhs@.difference(old(self)@)),
    {
        proof {
            BitBoard::lemma_xor_is_symmetric_difference(*self, rhs);
        }
        self.0 = self.0 ^ rhs.0;
    }
}

impl vstd::std_specs::ops::NotSpecImpl for BitBoard {
    open spec fn obeys_not_spec() -> bool {
        true
    }

    open spec fn not_req(self) -> bool {
        true
    }

    open spec fn not_spec(self) -> Self {
        BitBoard(!self.0)
    }
}

impl Not for BitBoard {
    type Output = Self;

    /// The squares that are not in the bitboard: every one of the 64 bits is
    /// flipped.
    fn not(self) -> (r: Self)
        ensures
            r.0 == !self.0,
            r@ == BitBoard::positions().difference(self@),
    {
        proof {
            BitBoard::lemma_not_is_complement(self);
        }
        BitBoard(!self.0)
    }
}

impl vstd::std_specs::ops::ShrSpecImpl for BitBoard {
    open spec fn obeys_shr_spec() -> bool {
        true
    }

    /// The distance of a shift is below 64.
    open spec fn shr_req(self, rhs: Self) -> bool {
        rhs.0 < 64
    }

    open spec fn shr_spec(self, rhs: Self) -> Self {
        BitBoard(self.0 >> rhs.0)
    }
}

impl Shr for BitBoard {
    type Output = Self;

    /// Shifts the pattern towards bit 0 by the distance that `rhs` holds as a
    /// number, filling with zeros.
    ///
    /// The distance must be below 64. Nothing here treats a longer one
    /// specially: passed by code that is not verified, it meets what `>>` on
    /// `u64` does with it, a panic where the build checks for overflow and
    /// the distance modulo 64 where it does not.
    fn shr(self, rhs: Self) -> (r: Self)
        ensures
            r.0 == self.0 >> rhs.0,
            forall|i: nat| #[trigger] r@.contains(i) <==> self@.contains((i + rhs.0) as nat),
    {
        proof {
            BitBoard::lemma_shr_moves_down(self, rhs);
        }
        BitBoard(self.0 >> rhs.0)
    }
}

impl ShrAssign for BitBoard {
    /// Shifts the receiver towards bit 0, as `>>` does and under the same
    /// condition on the distance.
    fn shr_assign(&mut self, rhs: Self)
        requires
            rhs.0 < 64,
        ensures
            *final(self) == old(self).shr_spec(rhs),
            final(self).0 == old(self).0 >> rhs.0,
            forall|i: nat|
                #[trigger] final(self)@.contains(i) <==> old(self)@.contains((i + rhs.0) as nat),
    {
        proof {
            BitBoard::lemma_shr_moves_down(*self, rhs);
        }
        self.0 = self.0 >> rhs.0;
    }
}

impl vstd::std_specs::ops::ShlSpecImpl for BitBoard {
    open spec fn obeys_shl_spec() -> bool {
        true
    }

    /// The distance of a shift is below 64.
    open spec fn shl_req(self, rhs: Self) -> bool {
        rhs.0 < 64
    }

    open spec fn shl_spec(self, rhs: Self) -> Self {
        BitBoard(self.0 << rhs.0)
    }
}

impl Shl for BitBoard {
    type Output = Self;

    /// Shifts the pattern towards bit 63 by the distance that `rhs` holds as a
    /// number, filling with zeros.
    ///
    /// The distance must be below 64. Nothing here treats a longer one
    /// specially: passed by code that is not verified, it meets what `<<` on
    /// `u64` does with it, a panic where the build checks for overflow and
    /// the distance modulo 64 where it does not.
    fn shl(self, rhs: Self) -> (r: Self)
        ensures
            r.0 == self.0 << rhs.0,
            forall|i: nat|
                #[trigger] r@.contains(i) <==> rhs.0 <= i < 64 && self@.contains(
                    (i - rhs.0) as nat,
                ),
    {
        proof {
            BitBoard::lemma_shl_moves_up(self, rhs);
        }
        BitBoard(self.0 << rhs.0)
    }
}

impl ShlAssign for BitBoard {
    /// Shifts the receiver towards bit 63, as `<<` does and under the same
    /// condition on the distance.
    fn shl_assign(&mut self, rhs: Self)
        requires
            rhs.0 < 64,
        ensures
            *final(self) == old(self).shl_spec(rhs),
            final(self).0 == old(self).0 << rhs.0,
            forall|i: nat|
                #[trigger] final(self)@.contains(i) <==> rhs.0 <= i < 64 && old(self)@.contains(
                    (i - rhs.0) as nat,
                ),
    {
        proof {
            BitBoard::lemma_shl_moves_up(*self, rhs);
        }
        self.0 = self.0 << rhs.0;
    }
}

} // verus!

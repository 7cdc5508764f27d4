//! The size value type and its operations.

use vstd::prelude::*;

use crate::human::{human_format_of, humanize_bytes};
use vstd::arithmetic::div_mod::{
    lemma_div_is_strictly_smaller, lemma_mod_division_less_than_divisor, lemma_small_mod,
};

verus! {

/// Number of bits in one byte: the unit-conversion constant for this crate.
pub const BITS_IN_BYTE: u64 = 8;

/// A non-negative amount of memory, stored canonically as a count of bits.
///
/// The largest representable amount is `u64::MAX` bits. Every operation is a
/// pure computation over the stored magnitude: arithmetic that would leave
/// the representable range is ruled out by precondition rather than wrapping
/// or saturating, and subtraction below zero is rejected outright — a size is
/// never negative.
#[derive(Clone, Copy, PartialEq, Eq, Structural, Hash, Debug, Ord)]
pub struct MemorySize {
    size_bits: u64,
}

impl View for MemorySize {
    type V = nat;

    closed spec fn view(&self) -> nat {
        self.size_bits as nat
    }
}

/// The magnitude that aligning `x` up to `a` yields: the smallest multiple
/// of `a` that is at least `x`, where an alignment of zero means "no
/// constraint" and leaves `x` unchanged.
pub open spec fn align_up_bits(x: nat, a: nat) -> nat {
    if a == 0 {
        x
    } else if x % a == 0 {
        x
    } else {
        (x / a + 1) * a
    }
}

/// The combined bit magnitude of a sequence of sizes.
pub open spec fn sum_bits(s: Seq<MemorySize>) -> nat
    decreases s.len(),
{
    if s.len() == 0 {
        0
    } else {
        sum_bits(s.drop_last()) + s.last()@
    }
}

impl MemorySize {
    /// A size of zero bits.
    pub fn new() -> (r: Self)
        ensures
            r@ == 0,
    {
        MemorySize { size_bits: 0 }
    }

    /// A size of `size_bytes` whole bytes. The byte count must be small
    /// enough that the bit magnitude stays representable.
    pub fn from_bytes(size_bytes: u64) -> (r: Self)
        requires
            size_bytes * BITS_IN_BYTE <= u64::MAX,
        ensures
            r@ == size_bytes * BITS_IN_BYTE,
    {
        MemorySize { size_bits: size_bytes * BITS_IN_BYTE }
    }

    /// A size of exactly `size_bits` bits.
    pub fn from_bits(size_bits: u64) -> (r: Self)
        ensures
            r@ == size_bits,
    {
        MemorySize { size_bits }
    }

    /// The stored magnitude, in bits.
    pub fn size_bits(&self) -> (r: u64)
        ensures
            r == self@,
    {
        self.size_bits
    }

    /// The magnitude as a whole byte count. The strict accessor: the caller
    /// must know the size is a whole number of bytes.
    pub fn size_bytes(&self) -> (r: u64)
        requires
            self@ % (BITS_IN_BYTE as nat) == 0,
        ensures
            r == self@ / (BITS_IN_BYTE as nat),
    {
        self.size_bits / BITS_IN_BYTE
    }

    /// The magnitude decomposed into leftover bits and whole bytes. The
    /// non-strict counterpart of [`Self::size_bytes`]: it tolerates partial
    /// bytes and reports the remainder explicitly.
    pub fn size_bits_bytes(&self) -> (r: (u64, u64))
        ensures
            r.0 == self@ % (BITS_IN_BYTE as nat),
            r.1 == self@ / (BITS_IN_BYTE as nat),
    {
        (self.size_bits % BITS_IN_BYTE, self.size_bits / BITS_IN_BYTE)
    }

    /// A size of `bits` bits rounded up to the next whole byte, so that the
    /// stored magnitude always corresponds to whole bytes. The rounded-up
    /// magnitude must stay representable.
    pub fn from_bits_ceil(bits: u64) -> (r: Self)
        requires
            align_up_bits(bits as nat, BITS_IN_BYTE as nat) <= u64::MAX,
        ensures
            r@ == align_up_bits(bits as nat, BITS_IN_BYTE as nat),
            r@ % (BITS_IN_BYTE as nat) == 0,
    {
        MemorySize::from_bits(bits).round_up_byte()
    }

    /// The sum of two sizes. The sum must stay representable.
    pub fn add(self, rhs: Self) -> (r: Self)
        requires
            self@ + rhs@ <= u64::MAX,
        ensures
            r@ == self@ + rhs@,
    {
        MemorySize { size_bits: self.size_bits + rhs.size_bits }
    }

    /// The difference of two sizes. The subtrahend must not exceed the
    /// minuend: a size cannot go negative.
    pub fn sub(self, rhs: Self) -> (r: Self)
        requires
            rhs@ <= self@,
        ensures
            r@ == self@ - rhs@,
    {
        MemorySize { size_bits: self.size_bits - rhs.size_bits }
    }

    /// Adds `rhs` to this size in place, under the same overflow contract as
    /// [`Self::add`].
    pub fn add_assign(&mut self, rhs: Self)
        requires
            old(self)@ + rhs@ <= u64::MAX,
        ensures
            final(self)@ == old(self)@ + rhs@,
    {
        self.size_bits = self.size_bits + rhs.size_bits;
    }

    /// Subtracts `rhs` from this size in place, under the same underflow
    /// contract as [`Self::sub`].
    pub fn sub_assign(&mut self, rhs: Self)
        requires
            rhs@ <= old(self)@,
        ensures
            final(self)@ == old(self)@ - rhs@,
    {
        self.size_bits = self.size_bits - rhs.size_bits;
    }

    /// The larger of two sizes.
    pub fn max(self, other: Self) -> (r: Self)
        ensures
            r@ == if self@ < other@ { other@ } else { self@ },
    {
        if self.size_bits < other.size_bits {
            other
        } else {
            self
        }
    }

    /// The smaller of two sizes.
    pub fn min(self, other: Self) -> (r: Self)
        ensures
            r@ == if self@ > other@ { other@ } else { self@ },
    {
        if self.size_bits > other.size_bits {
            other
        } else {
            self
        }
    }

    /// The smallest size at least as large as this one whose magnitude is a
    /// multiple of `alignment`. Zero is aligned to everything, and alignment
    /// zero means "no constraint". The rounded-up magnitude must stay
    /// representable: the ceiling is computed by division rather than by the
    /// naive `self + alignment - 1`, which could overflow near the top of the
    /// range.
    pub fn align_up(&self, alignment: MemorySize) -> (r: MemorySize)
        requires
            align_up_bits(self@, alignment@) <= u64::MAX,
        ensures
            r@ == align_up_bits(self@, alignment@),
    {
        if alignment.size_bits == 0 {
            return *self;
        }
        let quotient = self.size_bits / alignment.size_bits;
        let remainder = self.size_bits % alignment.size_bits;
        if remainder == 0 {
            *self
        } else {
            proof {
                lemma_align_quotient_fits(self@, alignment@);
            }
            MemorySize { size_bits: (quotient + 1) * alignment.size_bits }
        }
    }

    /// The smallest size of whole bytes that can store this one: alignment
    /// up to one byte. A no-op when the size already is a whole number of
    /// bytes.
    pub fn round_up_byte(&self) -> (r: MemorySize)
        requires
            align_up_bits(self@, BITS_IN_BYTE as nat) <= u64::MAX,
        ensures
            r@ == align_up_bits(self@, BITS_IN_BYTE as nat),
            r@ % (BITS_IN_BYTE as nat) == 0,
    {
        proof {
            crate::laws::lemma_align_up_properties(self@, BITS_IN_BYTE as nat);
        }
        self.align_up(MemorySize::from_bytes(1))
    }

    /// The sum of a sequence of sizes: repeated addition starting from zero.
    /// The total must stay representable; since every item is non-negative,
    /// no intermediate sum overflows before the total would.
    pub fn sum(sizes: &Vec<MemorySize>) -> (r: Self)
        requires
            sum_bits(sizes@) <= u64::MAX,
        ensures
            r@ == sum_bits(sizes@),
    {
        let mut total = MemorySize::new();
        let mut i: usize = 0;
        while i < sizes.len()
            invariant
                i <= sizes@.len(),
                total@ == sum_bits(sizes@.take(i as int)),
                sum_bits(sizes@) <= u64::MAX,
            decreases sizes@.len() - i,
        {
            proof {
                lemma_sum_bits_take_succ(sizes@, i as int);
                lemma_sum_bits_take_le(sizes@, i as int + 1);
            }
            total = total.add(sizes[i]);
            i = i + 1;
        }
        proof {
            assert(sizes@.take(sizes@.len() as int) =~= sizes@);
        }
        total
    }

    /// The byte-equivalent magnitude rendered as human-readable text by the
    /// external humanizer: 1024-based scaling, "B"/"kB"/"MB"/... labels, two
    /// decimal places trimmed to whole numbers when exact. A partial byte is
    /// floored away: display tolerates sizes that are not whole bytes.
    pub fn format_human(&self) -> (r: String)
        ensures
            r@ == human_format_of((self@ / (BITS_IN_BYTE as nat)) as u64),
    {
        humanize_bytes(self.size_bits / BITS_IN_BYTE)
    }

    /// This size clamped into the inclusive range `[min_size, max_size]`.
    /// The range must be well-formed: an empty range is a caller error.
    pub fn clamp(self, min_size: Self, max_size: Self) -> (r: Self)
        requires
            min_size@ <= max_size@,
        ensures
            r@ == if self@ < min_size@ {
                min_size@
            } else if self@ > max_size@ {
                max_size@
            } else {
                self@
            },
    {
        if self.size_bits < min_size.size_bits {
            min_size
        } else if self.size_bits > max_size.size_bits {
            max_size
        } else {
            self
        }
    }
}

impl Default for MemorySize {
    /// The default size is zero bits.
    fn default() -> (r: Self)
        ensures
            r@ == 0,
    {
        MemorySize::new()
    }
}

impl PartialOrd for MemorySize {
    /// Sizes are totally ordered by magnitude.
    fn partial_cmp(&self, other: &Self) -> (r: Option<core::cmp::Ordering>) {
        if self.size_bits < other.size_bits {
            Some(core::cmp::Ordering::Less)
        } else if self.size_bits == other.size_bits {
            Some(core::cmp::Ordering::Equal)
        } else {
            Some(core::cmp::Ordering::Greater)
        }
    }
}

impl vstd::std_specs::cmp::PartialOrdSpecImpl for MemorySize {
    open spec fn obeys_partial_cmp_spec() -> bool {
        true
    }

    open spec fn partial_cmp_spec(&self, other: &Self) -> Option<core::cmp::Ordering> {
        if self@ < other@ {
            Some(core::cmp::Ordering::Less)
        } else if self@ == other@ {
            Some(core::cmp::Ordering::Equal)
        } else {
            Some(core::cmp::Ordering::Greater)
        }
    }
}

/// Taking one more element extends the sum by exactly that element.
proof fn lemma_sum_bits_take_succ(s: Seq<MemorySize>, i: int)
    requires
        0 <= i < s.len(),
    ensures
        sum_bits(s.take(i + 1)) == sum_bits(s.take(i)) + s[i]@,
{
    assert(s.take(i + 1).drop_last() =~= s.take(i));
    assert(s.take(i + 1).last() == s[i]);
}

/// The sum of a prefix never exceeds the sum of the whole sequence.
proof fn lemma_sum_bits_take_le(s: Seq<MemorySize>, i: int)
    requires
        0 <= i <= s.len(),
    ensures
        sum_bits(s.take(i)) <= sum_bits(s),
    decreases s.len() - i,
{
    if i == s.len() {
        assert(s.take(i) =~= s);
    } else {
        lemma_sum_bits_take_succ(s, i);
        lemma_sum_bits_take_le(s, i + 1);
    }
}

/// In the rounding branch of `align_up` the quotient plus one still fits in
/// a `u64`, and multiplying it back by the alignment yields the aligned
/// magnitude.
proof fn lemma_align_quotient_fits(x: nat, a: nat)
    requires
        0 < a,
        x % a != 0,
        x <= u64::MAX,
        align_up_bits(x, a) <= u64::MAX,
    ensures
        x / a + 1 <= u64::MAX,
        (x / a + 1) * a == align_up_bits(x, a),
{
    if x == 0 {
        lemma_small_mod(0, a);
    }
    if a == 1 {
        lemma_mod_division_less_than_divisor(x as int, 1);
    }
    lemma_div_is_strictly_smaller(x as int, a as int);
}

/// Two sizes are equal exactly when their bit magnitudes are equal.
pub proof fn lemma_eq_by_magnitude(a: MemorySize, b: MemorySize)
    ensures
        (a@ == b@) <==> (a == b),
{
}

} // verus!

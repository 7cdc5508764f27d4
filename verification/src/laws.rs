//! Properties that hold of the size type across operations.

use vstd::prelude::*;

use vstd::arithmetic::div_mod::{
    lemma_div_by_multiple, lemma_fundamental_div_mod, lemma_mod_division_less_than_divisor,
    lemma_mod_multiples_basic, lemma_mod_self_0, lemma_small_mod,
};
use vstd::arithmetic::mul::{
    lemma_mul_is_distributive_add_other_way, lemma_mul_inequality,
    lemma_mul_strict_inequality_converse,
};

use crate::size::{align_up_bits, MemorySize, BITS_IN_BYTE};

verus! {

/// Adding a size and then subtracting the same size restores the original
/// magnitude, and addition is commutative, whenever the sum is representable.
pub proof fn lemma_add_sub_round_trip(a: MemorySize, b: MemorySize)
    requires
        a@ + b@ <= u64::MAX,
    ensures
        (a@ + b@) - b@ == a@,
        a@ + b@ == b@ + a@,
{
}

/// Of two unequal sizes, only the smaller may be subtracted from the larger
/// (the opposite direction is rejected by `sub`'s precondition), and adding
/// the smaller back to the difference restores the larger.
pub proof fn lemma_sub_then_add_restores(a: MemorySize, b: MemorySize)
    requires
        a@ < b@,
    ensures
        (b@ - a@) + a@ == b@,
{
}

/// A size built from a whole byte count carries exactly that many bytes:
/// its bit magnitude is the byte count times eight, which is divisible by
/// eight and divides back to the byte count.
pub proof fn lemma_from_bytes_round_trip(n: u64)
    requires
        n * BITS_IN_BYTE <= u64::MAX,
    ensures
        (n * BITS_IN_BYTE) % (BITS_IN_BYTE as int) == 0,
        (n * BITS_IN_BYTE) / (BITS_IN_BYTE as int) == n,
{
    lemma_mod_multiples_basic(n as int, BITS_IN_BYTE as int);
    lemma_div_by_multiple(n as int, BITS_IN_BYTE as int);
}

/// Aligning up with a nonzero alignment yields a multiple of the alignment
/// that is at least the original magnitude, overshoots it by less than one
/// alignment, and is the smallest such multiple.
pub proof fn lemma_align_up_properties(x: nat, a: nat)
    requires
        0 < a,
    ensures
        align_up_bits(x, a) % a == 0,
        align_up_bits(x, a) >= x,
        align_up_bits(x, a) < x + a,
        forall|m: nat| #[trigger] (m % a) == 0 && m >= x ==> m >= align_up_bits(x, a),
{
    broadcast use vstd::arithmetic::mul::lemma_mul_is_commutative;

    lemma_fundamental_div_mod(x as int, a as int);
    lemma_mod_division_less_than_divisor(x as int, a as int);
    if x % a != 0 {
        let q = x / a;
        lemma_mod_multiples_basic(q as int + 1, a as int);
        lemma_mul_is_distributive_add_other_way(a as int, q as int, 1);
        assert(align_up_bits(x, a) == q * a + a);
        assert forall|m: nat| #[trigger] (m % a) == 0 && m >= x implies m >= align_up_bits(
            x,
            a,
        ) by {
            lemma_fundamental_div_mod(m as int, a as int);
            let md = m as int / a as int;
            if m < align_up_bits(x, a) {
                lemma_mul_strict_inequality_converse(md, q as int + 1, a as int);
                lemma_mul_inequality(md, q as int, a as int);
            }
        }
    }
}

/// Alignment zero is a no-op, zero is aligned to every alignment, and every
/// magnitude is aligned to itself.
pub proof fn lemma_align_up_identities(x: nat)
    ensures
        align_up_bits(x, 0) == x,
        forall|a: nat| #[trigger] align_up_bits(0, a) == 0,
        align_up_bits(x, x) == x,
{
    assert forall|a: nat| #[trigger] align_up_bits(0, a) == 0 by {
        if a > 0 {
            lemma_small_mod(0, a);
        }
    }
    if x > 0 {
        lemma_mod_self_0(x as int);
    }
}

/// Rounding a bit count up to a whole byte yields the smallest multiple of
/// eight that is at least the given count, and that multiple is itself
/// exactly divisible by eight.
pub proof fn lemma_round_up_byte_smallest(n: u64)
    ensures
        align_up_bits(n as nat, BITS_IN_BYTE as nat) % (BITS_IN_BYTE as nat) == 0,
        align_up_bits(n as nat, BITS_IN_BYTE as nat) >= n,
        forall|m: nat|
            #[trigger] (m % (BITS_IN_BYTE as nat)) == 0 && m >= n ==> m >= align_up_bits(
                n as nat,
                BITS_IN_BYTE as nat,
            ),
{
    lemma_align_up_properties(n as nat, BITS_IN_BYTE as nat);
}

/// The ordering by magnitude is total: of any two sizes exactly one of
/// "less", "equal", "greater" holds, and equal magnitudes mean equal values.
pub proof fn lemma_total_order(a: MemorySize, b: MemorySize)
    ensures
        a@ < b@ || a@ == b@ || b@ < a@,
        a@ < b@ ==> !(a@ == b@) && !(b@ < a@),
        a@ == b@ ==> !(a@ < b@) && !(b@ < a@),
        b@ < a@ ==> !(a@ == b@) && !(a@ < b@),
        (a@ == b@) <==> (a == b),
{
    crate::size::lemma_eq_by_magnitude(a, b);
}

} // verus!

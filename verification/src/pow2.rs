//! Powers of two: the sizes a transform accepts.

use vstd::arithmetic::power2::{is_pow2, lemma_pow2_pos, lemma_pow2_unfold, pow2};
use vstd::prelude::*;

verus! {

/// The number of binary digits of `n`: zero for zero, otherwise one more
/// than the position of the highest set bit.
pub open spec fn bit_length(n: nat) -> nat
    decreases n,
{
    if n == 0 {
        0
    } else {
        1 + bit_length(n / 2)
    }
}

/// `n` lies below two to the number of its digits, and a positive `n` lies
/// at or above the power before it.
pub proof fn lemma_bit_length_bounds(n: nat)
    ensures
        n < pow2(bit_length(n)),
        n > 0 ==> pow2((bit_length(n) - 1) as nat) <= n,
    decreases n,
{
    reveal(vstd::arithmetic::power::pow);
    if n == 0 {
        lemma_pow2_pos(0);
    } else {
        lemma_bit_length_bounds(n / 2);
        lemma_pow2_unfold(bit_length(n));
        if n / 2 > 0 {
            lemma_pow2_unfold((bit_length(n) - 1) as nat);
        } else {
        }
    }
}

/// Two to the `e` has `e + 1` digits.
pub proof fn lemma_bit_length_pow2(e: nat)
    ensures
        bit_length(pow2(e)) == e + 1,
    decreases e,
{
    reveal(vstd::arithmetic::power::pow);
    if e == 0 {
        assert(bit_length(1) == 1 + bit_length(0));
    } else {
        lemma_pow2_unfold(e);
        lemma_pow2_pos((e - 1) as nat);
        lemma_bit_length_pow2((e - 1) as nat);
    }
}

/// Two to any exponent is a power of two.
pub proof fn lemma_pow2_is_pow2(e: nat)
    ensures
        is_pow2(pow2(e) as int),
    decreases e,
{
    reveal(is_pow2);
    reveal(vstd::arithmetic::power::pow);
    if e == 0 {
    } else {
        lemma_pow2_unfold(e);
        lemma_pow2_pos((e - 1) as nat);
        lemma_pow2_is_pow2((e - 1) as nat);
    }
}

/// A power of two is two to the number of its digits less one.
pub proof fn lemma_is_pow2_as_pow2(n: nat)
    requires
        is_pow2(n as int),
    ensures
        n == pow2((bit_length(n) - 1) as nat),
        bit_length(n) >= 1,
    decreases n,
{
    reveal(is_pow2);
    reveal(vstd::arithmetic::power::pow);
    if n == 1 {
        assert(bit_length(1) == 1 + bit_length(0));
    } else {
        lemma_is_pow2_as_pow2(n / 2);
        lemma_pow2_unfold((bit_length(n) - 1) as nat);
    }
}

/// Clearing the lowest set bit leaves nothing exactly when one bit was set.
proof fn lemma_single_bit(n: usize)
    requires
        n > 0,
    ensures
        (n & ((n - 1) as usize)) == 0 <==> is_pow2(n as int),
    decreases n,
{
    reveal(is_pow2);
    let m: usize = (n - 1) as usize;
    if n % 2 == 1 {
        assert(n & m == m) by (bit_vector)
            requires
                n % 2 == 1,
                m == n - 1,
        ;
    } else {
        let h: usize = n / 2;
        let g: usize = (h - 1) as usize;
        assert((n & m == 0) <==> (h & g == 0)) by (bit_vector)
            requires
                n % 2 == 0,
                n > 0,
                m == n - 1,
                h == n / 2,
                g == h - 1,
        ;
        lemma_single_bit(h);
    }
}

/// Two to the `e`, for an exponent below the width of `usize`.
pub fn two_to(e: usize) -> (r: usize)
    requires
        e < usize::BITS,
    ensures
        r == pow2(e as nat),
        r >= 1,
{
    proof {
        vstd::bits::lemma_usize_pow2_no_overflow(e as nat);
        vstd::bits::lemma_usize_shl_is_mul(1usize, e);
    }
    1usize << e
}

/// Whether `n` is a power of two. Zero is not.
pub fn power_of_2(n: usize) -> (r: bool)
    ensures
        r == is_pow2(n as int),
{
    if n == 0 {
        proof {
            reveal(is_pow2);
        }
        return false;
    }
    proof {
        lemma_single_bit(n);
    }
    (n & (n - 1)) == 0
}

/// The number of binary digits of `n`, which is the exponent of the least
/// power of two above `n`.
pub fn next_power_of_2(n: usize) -> (r: u32)
    ensures
        r == bit_length(n as nat),
        r <= usize::BITS,
        n < pow2(r as nat),
        n > 0 ==> pow2((r - 1) as nat) <= n,
{
    let mut r: u32 = 0;
    let mut m: usize = n;
    proof {
        reveal(vstd::arithmetic::power::pow);
        assert(pow2(0) == 1);
    }
    while m > 0
        invariant
            bit_length(n as nat) == r + bit_length(m as nat),
            r <= usize::BITS,
            m as nat * pow2(r as nat) <= n,
        decreases m,
    {
        proof {
            reveal(vstd::arithmetic::power::pow);
            lemma_pow2_unfold((r + 1) as nat);
            lemma_pow2_pos(r as nat);
            assert((m / 2) as nat * pow2((r + 1) as nat) <= m as nat * pow2(r as nat))
                by (nonlinear_arith)
                requires
                    pow2((r + 1) as nat) == 2 * pow2(r as nat),
            ;
            if r == usize::BITS {
                vstd::arithmetic::power2::lemma2_to64();
                assert(m as nat * pow2(r as nat) >= pow2(r as nat)) by (nonlinear_arith)
                    requires
                        m >= 1,
                ;
            }
        }
        m = m / 2;
        r = r + 1;
    }
    proof {
        lemma_bit_length_bounds(n as nat);
    }
    r
}

} // verus!

//! The number type the engine computes with.

use vstd::prelude::*;

verus! {

/// Real arithmetic as the engine needs it: the four operations, a
/// remainder, a few elementary functions, comparison and conversion from
/// and to counts.
///
/// The engine is meant for binary floating point, where sums and products
/// round, so nothing here claims an algebraic law. Each operation comes as
/// a pair: a `spec_` function that names its result and the executable
/// method, whose one promise is that it returns that result. An
/// implementation therefore has to make every method a function of its
/// operands alone; whatever is proved about the engine is proved for every
/// such implementation, and for no other.
pub trait Scalar: Sized + Copy {
    /// The additive identity.
    spec fn spec_zero() -> Self;

    fn zero() -> (r: Self)
        ensures
            r == Self::spec_zero(),
    ;

    /// The multiplicative identity.
    spec fn spec_one() -> Self;

    fn one() -> (r: Self)
        ensures
            r == Self::spec_one(),
    ;

    /// Half a turn, in radians.
    spec fn spec_pi() -> Self;

    fn pi() -> (r: Self)
        ensures
            r == Self::spec_pi(),
    ;

    /// A full turn, in radians.
    spec fn spec_tau() -> Self;

    fn tau() -> (r: Self)
        ensures
            r == Self::spec_tau(),
    ;

    /// The greatest value that is not infinite.
    spec fn spec_max_value() -> Self;

    fn max_value() -> (r: Self)
        ensures
            r == Self::spec_max_value(),
    ;

    /// The value nearest to the count `n`.
    spec fn spec_from_usize(n: usize) -> Self;

    fn from_usize(n: usize) -> (r: Self)
        ensures
            r == Self::spec_from_usize(n),
    ;

    /// The count nearest to `self` towards zero, held to the range of
    /// `usize`.
    spec fn spec_to_usize(self) -> usize;

    fn to_usize(self) -> (r: usize)
        ensures
            r == self.spec_to_usize(),
    ;

    spec fn spec_add(self, rhs: Self) -> Self;

    fn add(self, rhs: Self) -> (r: Self)
        ensures
            r == self.spec_add(rhs),
    ;

    spec fn spec_sub(self, rhs: Self) -> Self;

    fn sub(self, rhs: Self) -> (r: Self)
        ensures
            r == self.spec_sub(rhs),
    ;

    spec fn spec_mul(self, rhs: Self) -> Self;

    fn mul(self, rhs: Self) -> (r: Self)
        ensures
            r == self.spec_mul(rhs),
    ;

    spec fn spec_div(self, rhs: Self) -> Self;

    fn div(self, rhs: Self) -> (r: Self)
        ensures
            r == self.spec_div(rhs),
    ;

    /// The remainder of `self / rhs`, with the sign of `self`.
    spec fn spec_rem(self, rhs: Self) -> Self;

    fn rem(self, rhs: Self) -> (r: Self)
        ensures
            r == self.spec_rem(rhs),
    ;

    spec fn spec_neg(self) -> Self;

    fn neg(self) -> (r: Self)
        ensures
            r == self.spec_neg(),
    ;

    spec fn spec_abs(self) -> Self;

    fn abs(self) -> (r: Self)
        ensures
            r == self.spec_abs(),
    ;

    spec fn spec_sqrt(self) -> Self;

    fn sqrt(self) -> (r: Self)
        ensures
            r == self.spec_sqrt(),
    ;

    spec fn spec_sin(self) -> Self;

    fn sin(self) -> (r: Self)
        ensures
            r == self.spec_sin(),
    ;

    spec fn spec_cos(self) -> Self;

    fn cos(self) -> (r: Self)
        ensures
            r == self.spec_cos(),
    ;

    /// The angle of the point `(rhs, self)`: `self` is the ordinate.
    spec fn spec_atan2(self, rhs: Self) -> Self;

    fn atan2(self, rhs: Self) -> (r: Self)
        ensures
            r == self.spec_atan2(rhs),
    ;

    /// The length of the hypotenuse over the legs `self` and `rhs`.
    spec fn spec_hypot(self, rhs: Self) -> Self;

    fn hypot(self, rhs: Self) -> (r: Self)
        ensures
            r == self.spec_hypot(rhs),
    ;

    /// `self` raised to the power `rhs`.
    spec fn spec_powf(self, rhs: Self) -> Self;

    fn powf(self, rhs: Self) -> (r: Self)
        ensures
            r == self.spec_powf(rhs),
    ;

    /// The greatest whole value at or below `self`.
    spec fn spec_floor(self) -> Self;

    fn floor(self) -> (r: Self)
        ensures
            r == self.spec_floor(),
    ;

    /// The least whole value at or above `self`.
    spec fn spec_ceil(self) -> Self;

    fn ceil(self) -> (r: Self)
        ensures
            r == self.spec_ceil(),
    ;

    /// Whether `self` is strictly below `rhs`.
    spec fn spec_lt(self, rhs: Self) -> bool;

    fn lt(self, rhs: Self) -> (r: bool)
        ensures
            r == self.spec_lt(rhs),
    ;

    /// Whether `self` is at or below `rhs`.
    spec fn spec_le(self, rhs: Self) -> bool;

    fn le(self, rhs: Self) -> (r: bool)
        ensures
            r == self.spec_le(rhs),
    ;

    /// Whether `self` and `rhs` compare equal. Two values that compare
    /// equal need not be the same value, and a value need not compare
    /// equal to itself.
    spec fn spec_same(self, rhs: Self) -> bool;

    fn same(self, rhs: Self) -> (r: bool)
        ensures
            r == self.spec_same(rhs),
    ;
}

/// The sum of `k` steps, added up one by one from zero.
pub open spec fn ramp<T: Scalar>(step: T, k: nat) -> T
    decreases k,
{
    if k == 0 {
        T::spec_zero()
    } else {
        ramp(step, (k - 1) as nat).spec_add(step)
    }
}

} // verus!

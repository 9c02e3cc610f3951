//! Complex samples over a [`Scalar`].

use crate::scalar::Scalar;
use vstd::prelude::*;

verus! {

/// A complex number by its real and imaginary part.
#[derive(Debug)]
pub struct Complex<T> {
    pub re: T,
    pub im: T,
}

impl<T: Copy> Copy for Complex<T> {

}

impl<T: Copy> Clone for Complex<T> {
    fn clone(&self) -> (r: Self)
        ensures
            r == *self,
    {
        *self
    }
}

impl<T: Scalar> Complex<T> {
    pub open spec fn spec_zero() -> Self {
        Complex { re: T::spec_zero(), im: T::spec_zero() }
    }

    pub open spec fn spec_one() -> Self {
        Complex { re: T::spec_one(), im: T::spec_zero() }
    }

    /// The real number `re` as a complex one.
    pub open spec fn spec_from_real(re: T) -> Self {
        Complex { re, im: T::spec_zero() }
    }

    /// Part by part: `(a + c) + i (b + d)`.
    pub open spec fn spec_add(self, rhs: Self) -> Self {
        Complex { re: self.re.spec_add(rhs.re), im: self.im.spec_add(rhs.im) }
    }

    /// Part by part: `(a - c) + i (b - d)`.
    pub open spec fn spec_sub(self, rhs: Self) -> Self {
        Complex { re: self.re.spec_sub(rhs.re), im: self.im.spec_sub(rhs.im) }
    }

    /// `(a c - b d) + i (a d + b c)`, each product and sum rounded in
    /// this order.
    pub open spec fn spec_mul(self, rhs: Self) -> Self {
        Complex {
            re: self.re.spec_mul(rhs.re).spec_sub(self.im.spec_mul(rhs.im)),
            im: self.re.spec_mul(rhs.im).spec_add(self.im.spec_mul(rhs.re)),
        }
    }

    /// Both parts times the real number `t`.
    pub open spec fn spec_scale(self, t: T) -> Self {
        Complex { re: self.re.spec_mul(t), im: self.im.spec_mul(t) }
    }

    /// The mirror image in the real axis.
    pub open spec fn spec_conj(self) -> Self {
        Complex { re: self.re, im: self.im.spec_neg() }
    }

    /// The point of the unit circle at angle `phase`.
    pub open spec fn spec_cis(phase: T) -> Self {
        Complex { re: phase.spec_cos(), im: phase.spec_sin() }
    }

    /// The point at distance `r` and angle `theta`.
    pub open spec fn spec_from_polar(r: T, theta: T) -> Self {
        Complex { re: r.spec_mul(theta.spec_cos()), im: r.spec_mul(theta.spec_sin()) }
    }

    /// The distance from the origin.
    pub open spec fn spec_norm(self) -> T {
        self.re.spec_hypot(self.im)
    }

    /// The square of the distance from the origin.
    pub open spec fn spec_norm_sqr(self) -> T {
        self.re.spec_mul(self.re).spec_add(self.im.spec_mul(self.im))
    }

    /// The angle against the positive real axis.
    pub open spec fn spec_arg(self) -> T {
        self.im.spec_atan2(self.re)
    }

    pub fn new(re: T, im: T) -> (r: Self)
        ensures
            r == (Complex { re, im }),
    {
        Complex { re, im }
    }

    pub fn zero() -> (r: Self)
        ensures
            r == Self::spec_zero(),
    {
        Complex { re: T::zero(), im: T::zero() }
    }

    pub fn one() -> (r: Self)
        ensures
            r == Self::spec_one(),
    {
        Complex { re: T::one(), im: T::zero() }
    }

    pub fn from_real(re: T) -> (r: Self)
        ensures
            r == Self::spec_from_real(re),
    {
        Complex { re, im: T::zero() }
    }

    pub fn add(self, rhs: Self) -> (r: Self)
        ensures
            r == self.spec_add(rhs),
    {
        Complex { re: self.re.add(rhs.re), im: self.im.add(rhs.im) }
    }

    pub fn sub(self, rhs: Self) -> (r: Self)
        ensures
            r == self.spec_sub(rhs),
    {
        Complex { re: self.re.sub(rhs.re), im: self.im.sub(rhs.im) }
    }

    pub fn mul(self, rhs: Self) -> (r: Self)
        ensures
            r == self.spec_mul(rhs),
    {
        let re = self.re.mul(rhs.re).sub(self.im.mul(rhs.im));
        let im = self.re.mul(rhs.im).add(self.im.mul(rhs.re));
        Complex { re, im }
    }

    pub fn scale(self, t: T) -> (r: Self)
        ensures
            r == self.spec_scale(t),
    {
        Complex { re: self.re.mul(t), im: self.im.mul(t) }
    }

    pub fn conj(self) -> (r: Self)
        ensures
            r == self.spec_conj(),
    {
        Complex { re: self.re, im: self.im.neg() }
    }

    pub fn cis(phase: T) -> (r: Self)
        ensures
            r == Self::spec_cis(phase),
    {
        Complex { re: phase.cos(), im: phase.sin() }
    }

    pub fn from_polar(r: T, theta: T) -> (c: Self)
        ensures
            c == Self::spec_from_polar(r, theta),
    {
        Complex { re: r.mul(theta.cos()), im: r.mul(theta.sin()) }
    }

    pub fn norm(self) -> (r: T)
        ensures
            r == self.spec_norm(),
    {
        self.re.hypot(self.im)
    }

    pub fn norm_sqr(self) -> (r: T)
        ensures
            r == self.spec_norm_sqr(),
    {
        self.re.mul(self.re).add(self.im.mul(self.im))
    }

    pub fn arg(self) -> (r: T)
        ensures
            r == self.spec_arg(),
    {
        self.im.atan2(self.re)
    }
}

} // verus!

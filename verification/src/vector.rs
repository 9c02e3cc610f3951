//! Points and directions of the plane, and triples for colours.

use crate::scalar::Scalar;
use vstd::prelude::*;

verus! {

/// A point or a direction of the plane.
#[derive(Debug)]
pub struct Vector2<T> {
    pub x: T,
    pub y: T,
}

impl<T: Copy> Copy for Vector2<T> {

}

impl<T: Copy> Clone for Vector2<T> {
    fn clone(&self) -> (r: Self)
        ensures
            r == *self,
    {
        *self
    }
}

impl<T: Scalar> Vector2<T> {
    pub open spec fn spec_zero() -> Self {
        Vector2 { x: T::spec_zero(), y: T::spec_zero() }
    }

    pub open spec fn spec_add(self, rhs: Self) -> Self {
        Vector2 { x: self.x.spec_add(rhs.x), y: self.y.spec_add(rhs.y) }
    }

    pub open spec fn spec_sub(self, rhs: Self) -> Self {
        Vector2 { x: self.x.spec_sub(rhs.x), y: self.y.spec_sub(rhs.y) }
    }

    /// Both parts times `t`.
    pub open spec fn spec_scale(self, t: T) -> Self {
        Vector2 { x: self.x.spec_mul(t), y: self.y.spec_mul(t) }
    }

    /// Both parts over `t`.
    pub open spec fn spec_unscale(self, t: T) -> Self {
        Vector2 { x: self.x.spec_div(t), y: self.y.spec_div(t) }
    }

    /// `x x' + y y'`.
    pub open spec fn spec_dot(self, rhs: Self) -> T {
        self.x.spec_mul(rhs.x).spec_add(self.y.spec_mul(rhs.y))
    }

    /// `x y' - y x'`: the dot product with `rhs` turned a quarter back.
    pub open spec fn spec_perp_dot(self, rhs: Self) -> T {
        self.x.spec_mul(rhs.y).spec_sub(self.y.spec_mul(rhs.x))
    }

    /// The dot product of `self` with itself.
    pub open spec fn spec_squared_length(self) -> T {
        self.spec_dot(self)
    }

    /// The root of the squared length.
    pub open spec fn spec_length(self) -> T {
        self.spec_squared_length().spec_sqrt()
    }

    /// `self` over its length.
    pub open spec fn spec_normalised(self) -> Self {
        self.spec_unscale(self.spec_length())
    }

    /// `self` turned a quarter to the left: `(-y, x)`.
    pub open spec fn spec_rotated_90(self) -> Self {
        Vector2 { x: self.y.spec_neg(), y: self.x }
    }

    /// The squared length of `self - rhs`.
    pub open spec fn spec_squared_distance(self, rhs: Self) -> T {
        self.spec_sub(rhs).spec_squared_length()
    }

    pub fn new(x: T, y: T) -> (r: Self)
        ensures
            r == (Vector2 { x, y }),
    {
        Vector2 { x, y }
    }

    pub fn zero() -> (r: Self)
        ensures
            r == Self::spec_zero(),
    {
        Vector2 { x: T::zero(), y: T::zero() }
    }

    pub fn add(self, rhs: Self) -> (r: Self)
        ensures
            r == self.spec_add(rhs),
    {
        Vector2 { x: self.x.add(rhs.x), y: self.y.add(rhs.y) }
    }

    pub fn sub(self, rhs: Self) -> (r: Self)
        ensures
            r == self.spec_sub(rhs),
    {
        Vector2 { x: self.x.sub(rhs.x), y: self.y.sub(rhs.y) }
    }

    pub fn scale(self, t: T) -> (r: Self)
        ensures
            r == self.spec_scale(t),
    {
        Vector2 { x: self.x.mul(t), y: self.y.mul(t) }
    }

    pub fn unscale(self, t: T) -> (r: Self)
        ensures
            r == self.spec_unscale(t),
    {
        Vector2 { x: self.x.div(t), y: self.y.div(t) }
    }

    pub fn dot(self, rhs: Self) -> (r: T)
        ensures
            r == self.spec_dot(rhs),
    {
        self.x.mul(rhs.x).add(self.y.mul(rhs.y))
    }

    pub fn perp_dot(self, rhs: Self) -> (r: T)
        ensures
            r == self.spec_perp_dot(rhs),
    {
        self.x.mul(rhs.y).sub(self.y.mul(rhs.x))
    }

    pub fn squared_length(self) -> (r: T)
        ensures
            r == self.spec_squared_length(),
    {
        self.dot(self)
    }

    pub fn length(self) -> (r: T)
        ensures
            r == self.spec_length(),
    {
        self.squared_length().sqrt()
    }

    pub fn normalised(self) -> (r: Self)
        ensures
            r == self.spec_normalised(),
    {
        self.unscale(self.length())
    }

    pub fn rotated_90(self) -> (r: Self)
        ensures
            r == self.spec_rotated_90(),
    {
        Vector2 { x: self.y.neg(), y: self.x }
    }

    pub fn squared_distance(self, rhs: Self) -> (r: T)
        ensures
            r == self.spec_squared_distance(rhs),
    {
        self.sub(rhs).squared_length()
    }
}

/// A triple: the red, green and blue of a colour.
#[derive(Debug)]
pub struct Vector3<T> {
    pub x: T,
    pub y: T,
    pub z: T,
}

impl<T: Copy> Copy for Vector3<T> {

}

impl<T: Copy> Clone for Vector3<T> {
    fn clone(&self) -> (r: Self)
        ensures
            r == *self,
    {
        *self
    }
}

impl<T: Scalar> Vector3<T> {
    pub open spec fn spec_zero() -> Self {
        Vector3 { x: T::spec_zero(), y: T::spec_zero(), z: T::spec_zero() }
    }

    pub open spec fn spec_add(self, rhs: Self) -> Self {
        Vector3 { x: self.x.spec_add(rhs.x), y: self.y.spec_add(rhs.y), z: self.z.spec_add(rhs.z) }
    }

    /// All three parts times `t`.
    pub open spec fn spec_scale(self, t: T) -> Self {
        Vector3 { x: self.x.spec_mul(t), y: self.y.spec_mul(t), z: self.z.spec_mul(t) }
    }

    pub fn new(x: T, y: T, z: T) -> (r: Self)
        ensures
            r == (Vector3 { x, y, z }),
    {
        Vector3 { x, y, z }
    }

    pub fn zero() -> (r: Self)
        ensures
            r == Self::spec_zero(),
    {
        Vector3 { x: T::zero(), y: T::zero(), z: T::zero() }
    }

    pub fn add(self, rhs: Self) -> (r: Self)
        ensures
            r == self.spec_add(rhs),
    {
        Vector3 { x: self.x.add(rhs.x), y: self.y.add(rhs.y), z: self.z.add(rhs.z) }
    }

    pub fn scale(self, t: T) -> (r: Self)
        ensures
            r == self.spec_scale(t),
    {
        Vector3 { x: self.x.mul(t), y: self.y.mul(t), z: self.z.mul(t) }
    }
}

} // verus!

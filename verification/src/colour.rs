//! Colours, and the colour of a wavelength.

use crate::scalar::Scalar;
use crate::vector::Vector3;
use vstd::prelude::*;

verus! {

/// A colour by red, green, blue and opacity.
#[derive(Debug)]
pub struct Colour<T> {
    pub r: T,
    pub g: T,
    pub b: T,
    pub a: T,
}

impl<T: Copy> Copy for Colour<T> {

}

impl<T: Copy> Clone for Colour<T> {
    fn clone(&self) -> (r: Self)
        ensures
            r == *self,
    {
        *self
    }
}

impl<T: Scalar> Default for Colour<T> {
    /// All four parts zero.
    fn default() -> (c: Self)
        ensures
            c == (Colour {
                r: T::spec_zero(),
                g: T::spec_zero(),
                b: T::spec_zero(),
                a: T::spec_zero(),
            }),
    {
        Colour { r: T::zero(), g: T::zero(), b: T::zero(), a: T::zero() }
    }
}

impl<T: Scalar> Colour<T> {
    pub fn new(r: T, g: T, b: T, a: T) -> (c: Self)
        ensures
            c == (Colour { r, g, b, a }),
    {
        Colour { r, g, b, a }
    }

    /// An opaque colour.
    pub fn rgb(r: T, g: T, b: T) -> (c: Self)
        ensures
            c == (Colour { r, g, b, a: T::spec_one() }),
    {
        Colour { r, g, b, a: T::one() }
    }

    /// All four parts zero.
    pub fn zero() -> (c: Self)
        ensures
            c == (Colour { r: T::spec_zero(), g: T::spec_zero(), b: T::spec_zero(), a: T::spec_zero() }),
    {
        Colour { r: T::zero(), g: T::zero(), b: T::zero(), a: T::zero() }
    }

    /// The opaque colour of a triple.
    pub fn from_vector3(value: Vector3<T>) -> (c: Self)
        ensures
            c == (Colour { r: value.x, g: value.y, b: value.z, a: T::spec_one() }),
    {
        Self::rgb(value.x, value.y, value.z)
    }
}

/// The count `n` as a number.
pub open spec fn num<T: Scalar>(n: usize) -> T {
    T::spec_from_usize(n)
}

/// `n` tenths.
pub open spec fn tenths<T: Scalar>(n: usize) -> T {
    num::<T>(n).spec_div(num::<T>(10))
}

/// Whether `lo <= wl < hi`.
pub open spec fn within<T: Scalar>(wl: T, lo: usize, hi: usize) -> bool {
    num::<T>(lo).spec_le(wl) && wl.spec_lt(num::<T>(hi))
}

/// How far `wl` lies above `lo` on the way to `hi`, as a share.
pub open spec fn rising<T: Scalar>(wl: T, lo: usize, hi: usize) -> T {
    wl.spec_sub(num::<T>(lo)).spec_div(num::<T>(hi).spec_sub(num::<T>(lo)))
}

/// How far `wl` lies below `hi` on the way down to `lo`, as a share.
pub open spec fn falling<T: Scalar>(wl: T, lo: usize, hi: usize) -> T {
    wl.spec_sub(num::<T>(hi)).spec_neg().spec_div(num::<T>(hi).spec_sub(num::<T>(lo)))
}

/// The hue of the wavelength `wl`, in nanometres, before dimming: violet
/// from 380, through blue, cyan, green, yellow and orange to red, which
/// holds from 645 to 781. Outside that there is none.
pub open spec fn hue<T: Scalar>(wl: T) -> Vector3<T> {
    let zero = T::spec_zero();
    let one = T::spec_one();
    if within(wl, 380, 440) {
        Vector3 { x: falling(wl, 380, 440), y: zero, z: one }
    } else if within(wl, 440, 490) {
        Vector3 { x: zero, y: rising(wl, 440, 490), z: one }
    } else if within(wl, 490, 510) {
        Vector3 { x: zero, y: one, z: falling(wl, 490, 510) }
    } else if within(wl, 510, 580) {
        Vector3 { x: rising(wl, 510, 580), y: one, z: zero }
    } else if within(wl, 580, 645) {
        Vector3 { x: one, y: falling(wl, 580, 645), z: zero }
    } else if within(wl, 645, 781) {
        Vector3 { x: one, y: zero, z: zero }
    } else {
        Vector3 { x: zero, y: zero, z: zero }
    }
}

/// How bright the eye sees the wavelength `wl`: full from 420 to 701,
/// falling off to three tenths towards 380 and towards 780, nothing
/// beyond.
pub open spec fn brightness<T: Scalar>(wl: T) -> T {
    if within(wl, 380, 420) {
        tenths::<T>(3).spec_add(
            tenths::<T>(7).spec_div(num::<T>(420).spec_sub(num::<T>(380))).spec_mul(
                wl.spec_sub(num::<T>(380)),
            ),
        )
    } else if within(wl, 420, 701) {
        T::spec_one()
    } else if within(wl, 701, 781) {
        tenths::<T>(3).spec_add(
            tenths::<T>(7).spec_div(num::<T>(780).spec_sub(num::<T>(700))).spec_mul(
                num::<T>(780).spec_sub(wl),
            ),
        )
    } else {
        T::spec_zero()
    }
}

/// One part of a hue, dimmed by `factor` and raised to `gamma`. A part
/// that is zero stays zero, whatever `gamma` is.
pub open spec fn channel<T: Scalar>(part: T, factor: T, gamma: T) -> T {
    if part.spec_same(T::spec_zero()) {
        T::spec_zero()
    } else {
        part.spec_mul(factor).spec_powf(gamma)
    }
}

/// The colour of the wavelength `wl`, in nanometres.
pub open spec fn spec_wave_length_colour<T: Scalar>(wl: T, gamma: T) -> Vector3<T> {
    let h = hue(wl);
    let f = brightness(wl);
    Vector3 { x: channel(h.x, f, gamma), y: channel(h.y, f, gamma), z: channel(h.z, f, gamma) }
}

fn is_within<T: Scalar>(wl: T, lo: usize, hi: usize) -> (r: bool)
    ensures
        r == within(wl, lo, hi),
{
    T::from_usize(lo).le(wl) && wl.lt(T::from_usize(hi))
}

fn rise<T: Scalar>(wl: T, lo: usize, hi: usize) -> (r: T)
    ensures
        r == rising(wl, lo, hi),
{
    wl.sub(T::from_usize(lo)).div(T::from_usize(hi).sub(T::from_usize(lo)))
}

fn fall<T: Scalar>(wl: T, lo: usize, hi: usize) -> (r: T)
    ensures
        r == falling(wl, lo, hi),
{
    wl.sub(T::from_usize(hi)).neg().div(T::from_usize(hi).sub(T::from_usize(lo)))
}

fn tenth<T: Scalar>(n: usize) -> (r: T)
    ensures
        r == tenths::<T>(n),
{
    T::from_usize(n).div(T::from_usize(10))
}

fn dim<T: Scalar>(part: T, factor: T, gamma: T) -> (r: T)
    ensures
        r == channel(part, factor, gamma),
{
    if part.same(T::zero()) {
        T::zero()
    } else {
        part.mul(factor).powf(gamma)
    }
}

/// The colour in which the wavelength `wl`, in nanometres, is shown: its
/// hue, dimmed towards the limits of sight and raised to `gamma`.
pub fn wave_length_colour<T: Scalar>(wl: T, gamma: T) -> (r: Vector3<T>)
    ensures
        r == spec_wave_length_colour(wl, gamma),
{
    let zero = T::zero();
    let one = T::one();
    let h = if is_within(wl, 380, 440) {
        Vector3::new(fall(wl, 380, 440), zero, one)
    } else if is_within(wl, 440, 490) {
        Vector3::new(zero, rise(wl, 440, 490), one)
    } else if is_within(wl, 490, 510) {
        Vector3::new(zero, one, fall(wl, 490, 510))
    } else if is_within(wl, 510, 580) {
        Vector3::new(rise(wl, 510, 580), one, zero)
    } else if is_within(wl, 580, 645) {
        Vector3::new(one, fall(wl, 580, 645), zero)
    } else if is_within(wl, 645, 781) {
        Vector3::new(one, zero, zero)
    } else {
        Vector3::new(zero, zero, zero)
    };

    let factor = if is_within(wl, 380, 420) {
        let lf = tenth::<T>(7).div(T::from_usize(420).sub(T::from_usize(380)));
        tenth::<T>(3).add(lf.mul(wl.sub(T::from_usize(380))))
    } else if is_within(wl, 420, 701) {
        one
    } else if is_within(wl, 701, 781) {
        let hf = tenth::<T>(7).div(T::from_usize(780).sub(T::from_usize(700)));
        tenth::<T>(3).add(hf.mul(T::from_usize(780).sub(wl)))
    } else {
        zero
    };

    Vector3::new(dim(h.x, factor, gamma), dim(h.y, factor, gamma), dim(h.z, factor, gamma))
}

} // verus!

//! What one wave contributes behind one slit.

use crate::complex::Complex;
use crate::lambda_zip::{keys_of, next_match, LambdaZip};
use crate::scalar::Scalar;
use crate::vector::Vector2;
use vstd::prelude::*;

verus! {

/// A wave of one wavelength.
#[derive(Debug)]
pub struct Wave<T> {
    pub amplitude: T,
    pub lambda: T,
}

impl<T: Copy> Copy for Wave<T> {

}

impl<T: Copy> Clone for Wave<T> {
    fn clone(&self) -> (r: Self)
        ensures
            r == *self,
    {
        *self
    }
}

impl<T: Scalar> Default for Wave<T> {
    /// A wave of no amplitude and no length.
    fn default() -> (r: Self)
        ensures
            r == (Wave { amplitude: T::spec_zero(), lambda: T::spec_zero() }),
    {
        Wave { amplitude: T::zero(), lambda: T::zero() }
    }
}

impl<T: Scalar> Wave<T> {
    /// The phase with which the wave arrives after the path `path`: the
    /// part of the path beyond the last whole wavelength, as a share of a
    /// turn.
    pub open spec fn spec_phase(self, path: T) -> T {
        T::spec_tau().spec_mul(path.spec_rem(self.lambda)).spec_mul(
            T::spec_one().spec_div(self.lambda),
        )
    }

    /// By how much the slit dims the wave in the direction that the first
    /// of `diff_args` stands for: `|sin(b) / b|` times the amplitude, with
    /// `b` that value over the wavelength.
    pub open spec fn spec_magnitude(self, beta: T) -> T {
        let b = beta.spec_mul(T::spec_one().spec_div(self.lambda));
        b.spec_sin().spec_div(b).spec_abs().spec_mul(self.amplitude)
    }

    /// The field of the wave where `diff_args` holds the slit's `beta`
    /// and the length of the path. Straight ahead, where `beta` is zero,
    /// the wave arrives with its full amplitude.
    pub open spec fn spec_diffract(self, diff_args: (T, T)) -> Complex<T> {
        if diff_args.0.spec_same(T::spec_zero()) {
            Complex::spec_from_polar(self.amplitude, self.spec_phase(diff_args.1))
        } else {
            Complex::spec_from_polar(
                self.spec_magnitude(diff_args.0),
                self.spec_phase(diff_args.1),
            )
        }
    }

    pub fn new(wavelength: T, amplitude: T) -> (r: Self)
        ensures
            r == (Wave { amplitude, lambda: wavelength }),
    {
        Wave { amplitude, lambda: wavelength }
    }

    /// The field of the wave behind a slit, from what `Slit::diff_args`
    /// gave for the point.
    pub fn diffract(&self, diff_args: (T, T)) -> (r: Complex<T>)
        ensures
            r == self.spec_diffract(diff_args),
            diff_args.0.spec_same(T::spec_zero()) ==> r == Complex::spec_from_polar(
                self.amplitude,
                self.spec_phase(diff_args.1),
            ),
    {
        let rec = T::one().div(self.lambda);
        let phase = T::tau().mul(diff_args.1.rem(self.lambda)).mul(rec);

        if diff_args.0.same(T::zero()) {
            return Complex::from_polar(self.amplitude, phase);
        }
        let beta = diff_args.0.mul(rec);

        let sin = beta.sin();
        let sri = sin.div(beta).abs().mul(self.amplitude);
        Complex::from_polar(sri, phase)
    }
}

/// A slit in a wall, with the waves that pass through it.
pub struct Slit<'a, T> {
    pub width: T,
    pub position: Vector2<T>,
    direction: Vector2<T>,
    pub waves: &'a [Wave<T>],
}

/// The bins `acc` after the waves from `right` on have been added in,
/// the search for their bins beginning at `left`. Each wave that finds a
/// bin of its wavelength adds its field there; the first that finds none
/// ends it.
pub open spec fn accumulated<T: Scalar>(
    acc: Seq<(T, Complex<T>)>,
    waves: Seq<Wave<T>>,
    args: (T, T),
    left: int,
    right: int,
) -> Seq<(T, Complex<T>)>
    decreases waves.len() - right,
{
    if right < 0 || right >= waves.len() {
        acc
    } else {
        let m = next_match(keys_of(acc), left, waves[right].lambda);
        if m >= acc.len() {
            acc
        } else {
            accumulated(
                acc.update(m, (acc[m].0, acc[m].1.spec_add(waves[right].spec_diffract(args)))),
                waves,
                args,
                m + 1,
                right + 1,
            )
        }
    }
}

/// A slit as the contracts see it.
pub struct SlitView<T> {
    pub width: T,
    pub position: Vector2<T>,
    /// The unit normal of the wall, pointing to the side the slit lights.
    pub direction: Vector2<T>,
    pub waves: Seq<Wave<T>>,
}

impl<T: Scalar> SlitView<T> {
    /// Whether the point `x` lies behind the wall: the way to it runs
    /// against the normal.
    pub open spec fn behind(self, x: Vector2<T>) -> bool {
        x.spec_sub(self.position).spec_dot(self.direction).spec_lt(T::spec_zero())
    }

    /// What `diffract` needs to know of the point `x`: `pi` times the
    /// width times the sine of the angle under which `x` is seen, and the
    /// distance to `x`. Nothing for a point behind the wall.
    pub open spec fn diff_args(self, x: Vector2<T>) -> Option<(T, T)> {
        if self.behind(x) {
            None
        } else {
            let diff = x.spec_sub(self.position);
            let len = diff.spec_length();
            let sin = diff.spec_perp_dot(self.direction).spec_div(len);
            Some((T::spec_pi().spec_mul(self.width).spec_mul(sin), len))
        }
    }

    /// The bins `acc` after this slit has added what reaches `x`.
    pub open spec fn intensity(self, x: Vector2<T>, acc: Seq<(T, Complex<T>)>) -> Seq<
        (T, Complex<T>),
    > {
        match self.diff_args(x) {
            Some(args) => accumulated(acc, self.waves, args, 0, 0),
            None => acc,
        }
    }
}

impl<'a, T: Scalar> View for Slit<'a, T> {
    type V = SlitView<T>;

    closed spec fn view(&self) -> SlitView<T> {
        SlitView {
            width: self.width,
            position: self.position,
            direction: self.direction,
            waves: self.waves@,
        }
    }
}

impl<'a, T: Scalar> Slit<'a, T> {
    /// A slit of the given width at `position`, facing along `direction`,
    /// which is brought to unit length.
    pub fn new(width: T, position: Vector2<T>, direction: Vector2<T>, waves: &'a [Wave<T>]) -> (r:
        Self)
        ensures
            r@ == (SlitView {
                width,
                position,
                direction: direction.spec_normalised(),
                waves: waves@,
            }),
    {
        Slit { width, position, direction: direction.normalised(), waves }
    }

    pub fn get_direction(&self) -> (r: Vector2<T>)
        ensures
            r == self@.direction,
    {
        self.direction
    }

    /// Turns the slit to face along `direction`, brought to unit length.
    pub fn set_direction(&mut self, direction: Vector2<T>)
        ensures
            final(self)@ == (SlitView { direction: direction.spec_normalised(), ..old(self)@ }),
    {
        self.direction = direction.normalised();
    }

    /// What `Wave::diffract` needs to know of the point `x`, or `None`
    /// for a point behind the wall.
    pub fn diff_args(&self, x: Vector2<T>) -> (r: Option<(T, T)>)
        ensures
            r == self@.diff_args(x),
            r.is_none() <==> self@.behind(x),
    {
        let diff = x.sub(self.position);
        let dir = self.direction;

        if diff.dot(dir).lt(T::zero()) {
            return None;
        }
        let len = diff.length();
        let sin = diff.perp_dot(dir).div(len);
        Some((T::pi().mul(self.width).mul(sin), len))
    }

    /// Adds to the bins `result` what each wave of this slit brings to
    /// the point `x`. A bin is a wavelength and the field summed so far;
    /// a wave goes to the next bin of its own wavelength. For a point
    /// behind the wall nothing is added.
    pub fn calculate_intensity(&self, x: Vector2<T>, result: &mut Vec<(T, Complex<T>)>)
        ensures
            final(result)@ == self@.intensity(x, old(result)@),
            self@.behind(x) ==> final(result)@ == old(result)@,
            final(result)@.len() == old(result)@.len(),
    {
        let args_o = self.diff_args(x);
        match args_o {
            Some(args) => {
                let ghost goal = accumulated(result@, self.waves@, args, 0, 0);
                let mut zip = LambdaZip::new();
                loop
                    invariant_except_break
                        zip.left() <= result@.len(),
                        zip.right() <= self.waves@.len(),
                        goal == accumulated(result@, self.waves@, args, zip.left(), zip.right()),
                    invariant
                        result@.len() == old(result)@.len(),
                    ensures
                        result@ == goal,
                    decreases self.waves@.len() - zip.right(),
                {
                    match zip.next(result, self.waves) {
                        Some((li, ri)) => {
                            let bin = result[li];
                            let field = self.waves[ri].diffract(args);
                            result.set(li, (bin.0, bin.1.add(field)));
                        },
                        None => {
                            break ;
                        },
                    }
                }
            },
            None => {},
        };
    }
}

/// A slit adds nothing at a point behind its wall, whatever its waves
/// and whatever the bins hold.
pub proof fn lemma_behind_adds_nothing<T: Scalar>(
    slit: SlitView<T>,
    x: Vector2<T>,
    acc: Seq<(T, Complex<T>)>,
)
    requires
        slit.behind(x),
    ensures
        slit.diff_args(x).is_none(),
        slit.intensity(x, acc) == acc,
{
}

/// Adding a wave to its bin keeps the number of bins.
pub proof fn lemma_accumulated_len<T: Scalar>(
    acc: Seq<(T, Complex<T>)>,
    waves: Seq<Wave<T>>,
    args: (T, T),
    left: int,
    right: int,
)
    ensures
        accumulated(acc, waves, args, left, right).len() == acc.len(),
    decreases waves.len() - right,
{
    if 0 <= right < waves.len() {
        let m = next_match(keys_of(acc), left, waves[right].lambda);
        if 0 <= left <= acc.len() {
            crate::lambda_zip::lemma_next_match(keys_of(acc), left, waves[right].lambda);
        }
        if m < acc.len() {
            lemma_accumulated_len(
                acc.update(m, (acc[m].0, acc[m].1.spec_add(waves[right].spec_diffract(args)))),
                waves,
                args,
                m + 1,
                right + 1,
            );
        }
    }
}

/// A slit keeps the number of bins.
pub proof fn lemma_intensity_len<T: Scalar>(
    slit: SlitView<T>,
    x: Vector2<T>,
    acc: Seq<(T, Complex<T>)>,
)
    ensures
        slit.intensity(x, acc).len() == acc.len(),
{
    match slit.diff_args(x) {
        Some(args) => lemma_accumulated_len(acc, slit.waves, args, 0, 0),
        None => {},
    }
}

} // verus!

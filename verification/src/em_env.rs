//! The pattern that a set of slits throws on a screen.

use crate::complex::Complex;
use crate::diffraction::{Slit, SlitView};
use crate::scalar::{ramp, Scalar};
use crate::vector::{Vector2, Vector3};
use vstd::prelude::*;

verus! {

/// The screen: a segment between two points, sampled at even steps.
#[derive(Debug)]
pub struct EMEnv<T> {
    pub screen: (Vector2<T>, Vector2<T>),
}

impl<T: Copy> Clone for EMEnv<T> {
    fn clone(&self) -> (r: Self)
        ensures
            r == *self,
    {
        EMEnv { screen: (self.screen.0, self.screen.1) }
    }
}

/// The step between two samples of a screen of `count` samples: one over
/// one less than `count`.
pub open spec fn sample_step<T: Scalar>(count: nat) -> T {
    T::spec_one().spec_div(T::spec_from_usize((count - 1) as usize))
}

/// One empty bin for each wavelength of the wave map.
pub open spec fn cleared<T: Scalar>(wave_map: Seq<(T, Vector3<T>)>) -> Seq<(T, Complex<T>)> {
    wave_map.map_values(|w: (T, Vector3<T>)| (w.0, Complex::<T>::spec_zero()))
}

/// The bins `acc` after the first `n` of the slits have added what
/// reaches `point`.
pub open spec fn lit<T: Scalar>(
    slits: Seq<SlitView<T>>,
    point: Vector2<T>,
    acc: Seq<(T, Complex<T>)>,
    n: nat,
) -> Seq<(T, Complex<T>)>
    decreases n,
{
    if n == 0 {
        acc
    } else {
        slits[n - 1].intensity(point, lit(slits, point, acc, (n - 1) as nat))
    }
}

/// The colour of the first `n` bins: for each its colour weight times the
/// squared magnitude of its field, summed in order from zero.
pub open spec fn colour_sum<T: Scalar>(
    field: Seq<(T, Complex<T>)>,
    wave_map: Seq<(T, Vector3<T>)>,
    n: nat,
) -> Vector3<T>
    decreases n,
{
    if n == 0 {
        Vector3::spec_zero()
    } else {
        colour_sum(field, wave_map, (n - 1) as nat).spec_add(
            wave_map[n - 1].1.spec_scale(field[n - 1].1.spec_norm_sqr()),
        )
    }
}

/// The slits as the contracts see them.
pub open spec fn views<'a, T: Scalar>(slits: Seq<Slit<'a, T>>) -> Seq<SlitView<T>> {
    slits.map_values(|s: Slit<'a, T>| s@)
}

impl<T: Scalar> EMEnv<T> {
    /// The point of the screen at the share `x` of the way from its first
    /// end to its second.
    pub open spec fn spec_lerp(self, x: T) -> Vector2<T> {
        self.screen.0.spec_add(self.screen.1.spec_sub(self.screen.0).spec_scale(x))
    }

    /// The point of the screen at which sample `k` of `count` is taken.
    pub open spec fn sample_point(self, count: nat, k: nat) -> Vector2<T> {
        self.spec_lerp(ramp(sample_step::<T>(count), k))
    }

    /// The colour of sample `k` of `count`: every slit adds its field at
    /// the sample's point into empty bins, and the bins are summed up by
    /// colour.
    pub open spec fn sample_at(
        self,
        slits: Seq<SlitView<T>>,
        wave_map: Seq<(T, Vector3<T>)>,
        count: nat,
        k: nat,
    ) -> Vector3<T> {
        let field = lit(slits, self.sample_point(count, k), cleared(wave_map), slits.len());
        colour_sum(field, wave_map, wave_map.len())
    }

    pub fn new(scr_a: Vector2<T>, scr_b: Vector2<T>) -> (r: Self)
        ensures
            r.screen == (scr_a, scr_b),
    {
        EMEnv { screen: (scr_a, scr_b) }
    }

    fn lerp(&self, x: T) -> (r: Vector2<T>)
        ensures
            r == self.spec_lerp(x),
    {
        let a = self.screen.0;
        let b = self.screen.1;
        a.add(b.sub(a).scale(x))
    }

    /// Fills `samples` with the colours along the screen, the first at
    /// the screen's first end; each colour is handed to `convert` and
    /// what comes back is stored. `wave_map` pairs each wavelength with
    /// its colour weight. The sum of the fields is squared, not the
    /// fields one by one: the slits interfere.
    pub fn generate_pattern<S, C: Fn(Vector3<T>) -> S>(
        &self,
        slits: &[Slit<'_, T>],
        wave_map: &[(T, Vector3<T>)],
        samples: &mut Vec<S>,
        convert: C,
    )
        requires
            forall|v: Vector3<T>| call_requires(convert, (v,)),
        ensures
            final(samples)@.len() == old(samples)@.len(),
            forall|k: int|
                0 <= k < final(samples)@.len() ==> call_ensures(
                    convert,
                    (self.sample_at(views(slits@), wave_map@, old(samples)@.len(), k as nat),),
                    #[trigger] final(samples)@[k],
                ),
    {
        let count = samples.len();
        if count == 0 {
            return ;
        }
        let mut buffer: Vec<(T, Complex<T>)> = Vec::new();
        let mut b: usize = 0;
        while b < wave_map.len()
            invariant
                b <= wave_map@.len(),
                buffer@.len() == b,
                forall|i: int| 0 <= i < b ==> buffer@[i] == cleared(wave_map@)[i],
            decreases wave_map@.len() - b,
        {
            buffer.push((wave_map[b].0, Complex::zero()));
            b += 1;
        }

        let step = T::one().div(T::from_usize(count - 1));
        let mut x = T::zero();
        let ghost vs = views(slits@);

        let mut k: usize = 0;
        while k < count
            invariant
                k <= count,
                count == old(samples)@.len(),
                samples@.len() == count,
                vs == views(slits@),
                step == sample_step::<T>(count as nat),
                x == ramp(step, k as nat),
                buffer@ == cleared(wave_map@),
                forall|v: Vector3<T>| call_requires(convert, (v,)),
                forall|i: int|
                    0 <= i < k ==> call_ensures(
                        convert,
                        (self.sample_at(vs, wave_map@, count as nat, i as nat),),
                        #[trigger] samples@[i],
                    ),
            decreases count - k,
        {
            let s_p = self.lerp(x);
            x = x.add(step);

            let mut s: usize = 0;
            while s < slits.len()
                invariant
                    s <= slits@.len(),
                    vs == views(slits@),
                    buffer@ == lit(vs, s_p, cleared(wave_map@), s as nat),
                decreases slits@.len() - s,
            {
                slits[s].calculate_intensity(s_p, &mut buffer);
                s += 1;
            }
            let ghost field = buffer@;
            proof {
                lemma_lit_len(vs, s_p, cleared(wave_map@), vs.len());
            }

            let mut sample = Vector3::<T>::zero();
            let mut i: usize = 0;
            while i < wave_map.len()
                invariant
                    i <= wave_map@.len(),
                    field.len() == wave_map@.len(),
                    buffer@.len() == wave_map@.len(),
                    sample == colour_sum(field, wave_map@, i as nat),
                    forall|t: int| 0 <= t < i ==> buffer@[t] == cleared(wave_map@)[t],
                    forall|t: int| i <= t < buffer@.len() ==> buffer@[t] == field[t],
                decreases wave_map@.len() - i,
            {
                let c = buffer[i].1;
                buffer.set(i, (wave_map[i].0, Complex::zero()));
                sample = sample.add(wave_map[i].1.scale(c.norm_sqr()));
                i += 1;
            }
            samples.set(k, convert(sample));
            k += 1;
        }
    }
}

impl<T: Scalar> Default for EMEnv<T> {
    /// A screen whose two ends lie at the origin.
    fn default() -> (r: Self)
        ensures
            r.screen == (Vector2::<T>::spec_zero(), Vector2::<T>::spec_zero()),
    {
        EMEnv { screen: (Vector2::zero(), Vector2::zero()) }
    }
}

/// Slits add to the bins and never make or drop one.
pub proof fn lemma_lit_len<T: Scalar>(
    slits: Seq<SlitView<T>>,
    point: Vector2<T>,
    acc: Seq<(T, Complex<T>)>,
    n: nat,
)
    ensures
        lit(slits, point, acc, n).len() == acc.len(),
    decreases n,
{
    if n > 0 {
        lemma_lit_len(slits, point, acc, (n - 1) as nat);
        crate::diffraction::lemma_intensity_len(
            slits[n - 1],
            point,
            lit(slits, point, acc, (n - 1) as nat),
        );
    }
}

} // verus!

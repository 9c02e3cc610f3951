//! The wave under the user's hand: its samples in time, its spectrum, and
//! the edits that keep the two in step.

use crate::colour::{spec_wave_length_colour, tenths, wave_length_colour};
use crate::complex::Complex;
use crate::fft::{grown, transform, TransformError, WCache};
use crate::pow2::bit_length;
use crate::scalar::{ramp, Scalar};
use crate::spectrum::{dft_analysis, form_plot, mirrored, padded, padded_len};
use crate::util::copy_of;
use crate::vector::Vector3;
use vstd::prelude::*;

verus! {

/// An anchor of a line edit: a position and the value there.
pub type Anchor<F> = (usize, F);

/// The anchor with the lower position; `start` where they agree.
pub open spec fn lower<F>(start: Anchor<F>, end: Anchor<F>) -> Anchor<F> {
    if start.0 <= end.0 {
        start
    } else {
        end
    }
}

/// The anchor with the higher position; `end` where they agree.
pub open spec fn upper<F>(start: Anchor<F>, end: Anchor<F>) -> Anchor<F> {
    if start.0 <= end.0 {
        end
    } else {
        start
    }
}

/// Whether position `i` lies strictly between the two anchors.
pub open spec fn between<F>(start: Anchor<F>, end: Anchor<F>, i: int) -> bool {
    lower(start, end).0 < i < upper(start, end).0
}

/// The value on the straight line through the two anchors at position
/// `i`: from the lower anchor's value, the difference of the values times
/// the share of the way that `i` has gone.
pub open spec fn line_value<F: Scalar>(start: Anchor<F>, end: Anchor<F>, i: int) -> F {
    let lo = lower(start, end);
    let hi = upper(start, end);
    let diff = hi.1.spec_sub(lo.1);
    let scale = F::spec_one().spec_div(F::spec_from_usize((hi.0 - lo.0) as usize));
    let v = scale.spec_mul(F::spec_from_usize((i - lo.0) as usize));
    lo.1.spec_add(diff.spec_mul(v))
}

/// Rewrites the items of `plot` that lie strictly between the two
/// anchors: each becomes what `write` makes of the item and of the value
/// of the line through the anchors at its position. The anchors'
/// own positions are left alone, and so is all that lies beyond the end of
/// `plot`. The order of the anchors does not matter.
pub fn fill_format<G: Copy, F: Scalar, W: Fn(G, F) -> G>(
    plot: &mut Vec<G>,
    start: Anchor<F>,
    end: Anchor<F>,
    write: W,
)
    requires
        forall|g: G, v: F| call_requires(write, (g, v)),
    ensures
        final(plot)@.len() == old(plot)@.len(),
        forall|i: int|
            0 <= i < old(plot)@.len() && between(start, end, i) ==> call_ensures(
                write,
                (old(plot)@[i], line_value(start, end, i)),
                #[trigger] final(plot)@[i],
            ),
        forall|i: int|
            0 <= i < old(plot)@.len() && !between(start, end, i) ==> #[trigger] final(plot)@[i]
                == old(plot)@[i],
{
    if start.0 == end.0 {
        return ;
    }
    let (lo, hi) = if start.0 < end.0 {
        (start, end)
    } else {
        (end, start)
    };
    let diff = hi.1.sub(lo.1);
    let scale = F::one().div(F::from_usize(hi.0 - lo.0));

    let mut i: usize = lo.0 + 1;
    while i < hi.0 && i < plot.len()
        invariant
            lo == lower(start, end),
            hi == upper(start, end),
            lo.0 < hi.0,
            lo.0 < i <= hi.0,
            diff == hi.1.spec_sub(lo.1),
            scale == F::spec_one().spec_div(F::spec_from_usize((hi.0 - lo.0) as usize)),
            plot@.len() == old(plot)@.len(),
            forall|g: G, v: F| call_requires(write, (g, v)),
            forall|t: int|
                0 <= t < i && t < plot@.len() && between(start, end, t) ==> call_ensures(
                    write,
                    (old(plot)@[t], line_value(start, end, t)),
                    #[trigger] plot@[t],
                ),
            forall|t: int|
                0 <= t < plot@.len() && (t >= i || !between(start, end, t)) ==> #[trigger] plot@[t]
                    == old(plot)@[t],
        decreases hi.0 - i,
    {
        let v = scale.mul(F::from_usize(i - lo.0));
        let item = write(plot[i], lo.1.add(diff.mul(v)));
        plot.set(i, item);
        i += 1;
    }
}

/// Draws the straight line through the two anchors into `plot`: every
/// sample strictly between them takes the value of the line at its
/// position. The samples at the anchors themselves are left alone.
pub fn fill<F: Scalar>(plot: &mut Vec<F>, start: Anchor<F>, end: Anchor<F>)
    ensures
        final(plot)@.len() == old(plot)@.len(),
        forall|i: int|
            0 <= i < old(plot)@.len() ==> #[trigger] final(plot)@[i] == if between(start, end, i) {
                line_value(start, end, i)
            } else {
                old(plot)@[i]
            },
{
    let write = |_o: F, v: F| -> (r: F)
        ensures
            r == v,
        { v };
    fill_format(plot, start, end, write);
}

/// The position `l` held within a list of `len` items.
pub open spec fn held(l: usize, len: nat) -> int {
    if l >= len {
        len - 1
    } else {
        l as int
    }
}

/// The value of `vec` at the place `i`, which may lie between two
/// positions: there the two neighbours are weighed by how near they are.
/// Past the last position the last value holds.
pub open spec fn spec_lerp_index<T: Scalar>(vec: Seq<T>, i: T) -> T {
    let ld = i.spec_floor();
    let l = held(ld.spec_to_usize(), vec.len());
    let u = i.spec_ceil().spec_to_usize();
    if u >= vec.len() {
        vec[l]
    } else {
        let frac = i.spec_sub(ld);
        vec[u as int].spec_sub(vec[l]).spec_mul(frac).spec_add(vec[l])
    }
}

fn lerp_index<T: Scalar>(vec: &Vec<T>, i: T) -> (r: T)
    requires
        vec@.len() > 0,
    ensures
        r == spec_lerp_index(vec@, i),
{
    let ld = i.floor();
    let l0 = ld.to_usize();
    let l = if l0 >= vec.len() {
        vec.len() - 1
    } else {
        l0
    };
    let u = i.ceil().to_usize();

    if u >= vec.len() {
        return vec[l];
    }
    let frac = i.sub(ld);

    let a = vec[l];
    let b = vec[u];
    b.sub(a).mul(frac).add(a)
}

/// `a` taken at `size` places, evenly apart and beginning at its first
/// sample; all zero where `a` is empty.
pub open spec fn remapped<T: Scalar>(a: Seq<T>, size: nat) -> Seq<T> {
    if a.len() == 0 {
        Seq::new(size, |k: int| T::spec_zero())
    } else {
        let step = T::spec_from_usize(a.len() as usize).spec_div(T::spec_from_usize(size as usize));
        Seq::new(size, |k: int| spec_lerp_index(a, ramp(step, k as nat)))
    }
}

fn remap<T: Scalar>(a: &Vec<T>, size: usize) -> (b: Vec<T>)
    ensures
        b@ == remapped(a@, size as nat),
{
    let al = a.len();
    let mut b: Vec<T> = Vec::new();
    if al == 0 {
        let mut k: usize = 0;
        while k < size
            invariant
                k <= size,
                b@.len() == k,
                forall|t: int| 0 <= t < k ==> b@[t] == T::spec_zero(),
            decreases size - k,
        {
            b.push(T::zero());
            k += 1;
        }
        return b;
    }
    let step = T::from_usize(al).div(T::from_usize(size));

    let mut fi = T::zero();
    let mut k: usize = 0;
    while k < size
        invariant
            k <= size,
            al == a@.len(),
            al > 0,
            b@.len() == k,
            step == T::spec_from_usize(al).spec_div(T::spec_from_usize(size)),
            fi == ramp(step, k as nat),
            forall|t: int| 0 <= t < k ==> b@[t] == spec_lerp_index(a@, ramp(step, t as nat)),
        decreases size - k,
    {
        b.push(lerp_index(a, fi));
        fi = fi.add(step);
        k += 1;
    }
    b
}

/// The wavelengths shown for `n` bins and their colours: from 700
/// nanometres down, 300 in all over the `n - 1` steps.
pub open spec fn spec_wave_map<T: Scalar>(n: nat) -> Seq<(T, Vector3<T>)> {
    let t = T::spec_from_usize(300).spec_div(T::spec_from_usize((n - 1) as usize));
    Seq::new(
        n,
        |i: int|
            {
                let l = T::spec_from_usize(700).spec_sub(T::spec_from_usize(i as usize).spec_mul(t));
                (l, spec_wave_length_colour(l, tenths::<T>(8)))
            },
    )
}

/// One bin of the spectrum as it is shown: the amplitude, then the red,
/// green and blue of the bin's colour.
pub type Bin<T> = [T; 4];

/// The wave in all its forms.
///
/// `dft` is the half spectrum, bin 0 first. `spectrum` and `phase` hold
/// what is shown of bins 1 and up: position `i` of either belongs to
/// `dft[i + 1]`. The amplitudes shown are the true ones times
/// `scale / dft.len()`.
#[derive(Debug)]
pub struct WaveData<T> {
    pub wave: Vec<T>,
    pub spectrum: Vec<Bin<T>>,
    pub phase: Vec<T>,
    pub dft: Vec<Complex<T>>,
    pub wave_map: Vec<(T, Vector3<T>)>,
    pub scale: T,
    pub use_phase: bool,
}

/// A `WaveData` as the contracts see it.
pub struct WaveDataView<T> {
    pub wave: Seq<T>,
    pub spectrum: Seq<Seq<T>>,
    pub phase: Seq<T>,
    pub dft: Seq<Complex<T>>,
    pub wave_map: Seq<(T, Vector3<T>)>,
    pub scale: T,
    pub use_phase: bool,
}

impl<T: Scalar> View for WaveData<T> {
    type V = WaveDataView<T>;

    open spec fn view(&self) -> WaveDataView<T> {
        WaveDataView {
            wave: self.wave@,
            spectrum: self.spectrum@.map_values(|b: Bin<T>| b@),
            phase: self.phase@,
            dft: self.dft@,
            wave_map: self.wave_map@,
            scale: self.scale,
            use_phase: self.use_phase,
        }
    }
}

impl<T: Scalar> WaveDataView<T> {
    /// How many bins are shown.
    pub open spec fn bins(self) -> nat {
        self.spectrum.len()
    }

    /// The shown bins and the half spectrum belong together: a phase and
    /// a spectrum bin for each bin shown, each of four parts.
    pub open spec fn wf(self) -> bool {
        &&& self.phase.len() == self.spectrum.len()
        &&& self.dft.len() == self.spectrum.len() + 1
        &&& forall|i: int| 0 <= i < self.spectrum.len() ==> (#[trigger] self.spectrum[i]).len() == 4
    }

    /// The number of bins of the half spectrum, as a number.
    pub open spec fn size(self) -> T {
        T::spec_from_usize(self.dft.len() as usize)
    }

    /// The amplitude shown at bin `i`.
    pub open spec fn shown(self, i: int) -> T {
        self.spectrum[i][0]
    }

    /// The half spectrum's bin for position `i` after the amplitude
    /// shown there is set to `value`. With phases in use the bin keeps
    /// its direction; a bin that was shown as zero has none and takes the
    /// phase shown. Without, the bin becomes real.
    pub open spec fn point_bin(self, i: int, value: T) -> Complex<T> {
        let full = value.spec_mul(self.size()).spec_div(self.scale);
        if !self.use_phase {
            Complex { re: full, im: T::spec_zero() }
        } else if self.shown(i).spec_same(T::spec_zero()) {
            Complex::spec_from_polar(full, self.phase[i])
        } else {
            self.dft[i + 1].spec_scale(value.spec_div(self.shown(i)))
        }
    }

    /// As `point_bin`, for a bin on the line of a line edit: the factor
    /// from shown to true amplitude is taken once for the line.
    pub open spec fn line_bin(self, i: int, value: T) -> Complex<T> {
        let full = value.spec_mul(self.size().spec_div(self.scale));
        if !self.use_phase {
            Complex { re: full, im: T::spec_zero() }
        } else if self.shown(i).spec_same(T::spec_zero()) {
            Complex::spec_from_polar(full, self.phase[i])
        } else {
            self.dft[i + 1].spec_scale(value.spec_div(self.shown(i)))
        }
    }

    /// After `set_spec_point(i, value)`.
    pub open spec fn with_spec_point(self, i: int, value: T) -> Self {
        WaveDataView {
            spectrum: self.spectrum.update(i, self.spectrum[i].update(0, value)),
            dft: self.dft.update(i + 1, self.point_bin(i, value)),
            ..self
        }
    }

    /// After `set_phase_point(i, value)`: the bin takes the new phase and
    /// keeps the amplitude shown.
    pub open spec fn with_phase_point(self, i: int, value: T) -> Self {
        let amp = self.shown(i).spec_mul(self.size()).spec_div(self.scale);
        WaveDataView {
            phase: self.phase.update(i, value),
            dft: self.dft.update(i + 1, Complex::spec_from_polar(amp, value)),
            ..self
        }
    }

    /// After `set_spec_line(start, end)`.
    pub open spec fn with_spec_line(self, start: Anchor<T>, end: Anchor<T>) -> Self {
        WaveDataView {
            spectrum: Seq::new(
                self.spectrum.len(),
                |i: int|
                    if between(start, end, i) {
                        self.spectrum[i].update(0, line_value(start, end, i))
                    } else {
                        self.spectrum[i]
                    },
            ),
            dft: Seq::new(
                self.dft.len(),
                |j: int|
                    if 1 <= j && between(start, end, j - 1) {
                        self.line_bin(j - 1, line_value(start, end, j - 1))
                    } else {
                        self.dft[j]
                    },
            ),
            ..self
        }
    }

    /// After `set_phase_line(start, end)`.
    pub open spec fn with_phase_line(self, start: Anchor<T>, end: Anchor<T>) -> Self {
        let s = self.size().spec_div(self.scale);
        WaveDataView {
            phase: Seq::new(
                self.phase.len(),
                |i: int|
                    if between(start, end, i) {
                        line_value(start, end, i)
                    } else {
                        self.phase[i]
                    },
            ),
            dft: Seq::new(
                self.dft.len(),
                |j: int|
                    if 1 <= j && between(start, end, j - 1) {
                        Complex::spec_from_polar(
                            self.shown(j - 1).spec_mul(s),
                            line_value(start, end, j - 1),
                        )
                    } else {
                        self.dft[j]
                    },
            ),
            ..self
        }
    }

    /// The wave map that goes with the half spectrum: the one there
    /// is, if it has a wavelength for each bin shown, else a fresh one.
    pub open spec fn fitting_wave_map(self) -> Seq<(T, Vector3<T>)> {
        if self.wave_map.len() == self.dft.len() - 1 {
            self.wave_map
        } else {
            spec_wave_map::<T>((self.dft.len() - 1) as nat)
        }
    }

    /// After `update_spec_phase`: what is shown, taken afresh from the
    /// half spectrum.
    pub open spec fn with_spec_phase(self) -> Self {
        if self.dft.len() == 0 {
            WaveDataView { spectrum: Seq::empty(), phase: Seq::empty(), ..self }
        } else {
            let map = self.fitting_wave_map();
            let s = self.scale.spec_div(self.size());
            WaveDataView {
                wave_map: map,
                spectrum: Seq::new(
                    (self.dft.len() - 1) as nat,
                    |i: int|
                        seq![
                            self.dft[i + 1].spec_norm().spec_mul(s),
                            map[i].1.x,
                            map[i].1.y,
                            map[i].1.z,
                        ],
                ),
                phase: Seq::new((self.dft.len() - 1) as nat, |i: int| self.dft[i + 1].spec_arg()),
                ..self
            }
        }
    }

    /// After `set_scale(scale)`: every amplitude shown goes by the factor
    /// from the old scale to the new.
    pub open spec fn with_scale(self, scale: T) -> Self {
        let s = scale.spec_div(self.scale);
        WaveDataView {
            scale,
            spectrum: Seq::new(
                self.spectrum.len(),
                |i: int| self.spectrum[i].update(0, self.spectrum[i][0].spec_mul(s)),
            ),
            ..self
        }
    }
}

/// What `update_spec_phase` shows fits the half spectrum it was taken
/// from.
pub proof fn lemma_spec_phase_wf<T: Scalar>(v: WaveDataView<T>)
    requires
        v.dft.len() > 0,
    ensures
        v.with_spec_phase().wf(),
{
}

impl<T: Scalar> WaveData<T> {
    /// Takes the half spectrum afresh from the samples in time, by a
    /// backward-turning transform, and with it all that is shown. Without
    /// samples nothing is done.
    pub fn compute_dft(&mut self, wn: &mut WCache<T>)
        requires
            old(wn).wf(),
            bit_length(old(self).wave@.len()) + 1 < usize::BITS,
        ensures
            final(wn).wf(),
            old(self)@.wave.len() == 0 ==> final(self)@ == old(self)@ && final(wn).inverted()
                == old(wn).inverted() && final(wn).max_power() == old(wn).max_power(),
            old(self)@.wave.len() > 0 ==> final(wn).inverted() && final(self)@ == (WaveDataView {
                dft: transform(padded(old(self)@.wave), true).take(
                    (padded_len(old(self)@.wave.len()) / 2 + 1) as int,
                ),
                ..old(self)@
            }).with_spec_phase(),
            old(self)@.wave.len() > 0 ==> final(self)@.wf() && final(self)@.dft.len() == padded_len(
                old(self)@.wave.len(),
            ) / 2 + 1,
            old(self)@.wave.len() > 0 ==> final(wn).max_power() == grown(
                old(wn).max_power(),
                bit_length(old(self)@.wave.len()) + 1,
            ),
    {
        if self.wave.len() == 0 {
            return ;
        }
        wn.set_invert(true);
        match dft_analysis(wn, self.wave.as_slice()) {
            Ok(d) => {
                self.dft = d;
            },
            Err(_) => {
                return ;
            },
        }
        self.update_spec_phase();
    }

    /// Takes the samples in time afresh from the half spectrum, by a
    /// forward-turning transform; as many samples as there were, as far
    /// as the transform yields them. Without a half spectrum nothing is
    /// done. A half spectrum that is not one bin more than a power of two
    /// is refused and all is left as it was.
    pub fn compute_plot(&mut self, wn: &mut WCache<T>) -> (r: Result<(), TransformError>)
        requires
            old(wn).wf(),
            2 * (old(self).dft@.len() - 1) <= usize::MAX,
        ensures
            final(wn).wf(),
            r.is_ok() <==> old(self)@.dft.len() == 0 || vstd::arithmetic::power2::is_pow2(
                old(self)@.dft.len() - 1,
            ),
            old(self)@.dft.len() == 0 ==> final(self)@ == old(self)@ && final(wn).inverted() == old(
                wn,
            ).inverted() && final(wn).max_power() == old(wn).max_power(),
            old(self)@.dft.len() > 0 ==> !final(wn).inverted(),
            r.is_err() ==> final(self)@ == old(self)@ && r == Err::<(), TransformError>(
                TransformError::InvalidLength,
            ) && final(wn).max_power() == old(wn).max_power(),
            r.is_ok() && old(self)@.dft.len() > 0 ==> final(wn).max_power() == grown(
                old(wn).max_power(),
                bit_length((old(self)@.dft.len() - 1) as nat),
            ),
            r.is_ok() && old(self)@.dft.len() > 0 ==> !final(wn).inverted() && final(self)@ == (
            WaveDataView {
                wave: transform(mirrored(old(self)@.dft), false).take(
                    if old(self)@.wave.len() <= 2 * (old(self)@.dft.len() - 1) {
                        old(self)@.wave.len() as int
                    } else {
                        2 * (old(self)@.dft.len() - 1)
                    },
                ).map_values(|c: Complex<T>| c.re),
                ..old(self)@
            }),
    {
        if self.dft.len() == 0 {
            return Ok(());
        }
        wn.set_invert(false);
        match form_plot(wn, self.dft.as_slice(), self.wave.len()) {
            Ok(plot) => {
                let mut wave: Vec<T> = Vec::new();
                let mut i: usize = 0;
                while i < plot.len()
                    invariant
                        i <= plot@.len(),
                        wave@.len() == i,
                        forall|t: int| 0 <= t < i ==> wave@[t] == plot@[t].re,
                    decreases plot@.len() - i,
                {
                    wave.push(plot[i].re);
                    i += 1;
                }
                assert(wave@ =~= plot@.map_values(|c: Complex<T>| c.re));
                self.wave = wave;
                Ok(())
            },
            Err(e) => Err(e),
        }
    }

    /// Brings the samples in time to the number `size`, reading the new
    /// ones off the old at evenly spaced places.
    pub fn resize(&mut self, size: usize)
        ensures
            final(self)@ == (WaveDataView {
                wave: remapped(old(self)@.wave, size as nat),
                ..old(self)@
            }),
    {
        self.wave = remap(&self.wave, size);
    }

    fn generate_wave_map(&mut self, size: usize)
        ensures
            final(self)@ == (WaveDataView { wave_map: spec_wave_map::<T>(size as nat), ..old(self)@ }),
    {
        let mut map: Vec<(T, Vector3<T>)> = Vec::new();
        if size == 0 {
            assert(map@ =~= spec_wave_map::<T>(0));
            self.wave_map = map;
            return ;
        }
        let t = T::from_usize(300).div(T::from_usize(size - 1));
        let gamma = T::from_usize(8).div(T::from_usize(10));
        let mut i: usize = 0;
        while i < size
            invariant
                i <= size,
                size >= 1,
                map@.len() == i,
                t == T::spec_from_usize(300).spec_div(T::spec_from_usize((size - 1) as usize)),
                gamma == tenths::<T>(8),
                forall|k: int| 0 <= k < i ==> map@[k] == spec_wave_map::<T>(size as nat)[k],
            decreases size - i,
        {
            let l = T::from_usize(700).sub(T::from_usize(i).mul(t));
            map.push((l, wave_length_colour(l, gamma)));
            i += 1;
        }
        assert(map@ =~= spec_wave_map::<T>(size as nat));
        self.wave_map = map;
    }

    /// Takes what is shown afresh from the half spectrum: for each bin
    /// after the first its magnitude, scaled, with the colour of its
    /// wavelength, and its angle. The wave map is made anew where it
    /// does not fit the number of bins.
    pub fn update_spec_phase(&mut self)
        ensures
            final(self)@ == old(self)@.with_spec_phase(),
            old(self)@.dft.len() > 0 ==> final(self)@.wf(),
    {
        proof {
            if old(self)@.dft.len() > 0 {
                lemma_spec_phase_wf(old(self)@);
            }
        }
        let size = self.dft.len();
        if size == 0 {
            self.spectrum = Vec::new();
            self.phase = Vec::new();
            assert(self@.spectrum =~= Seq::<Seq<T>>::empty());
            return ;
        }
        if self.wave_map.len() != size - 1 {
            self.generate_wave_map(size - 1);
        }
        let ghost goal = old(self)@.with_spec_phase();
        let s = self.scale.div(T::from_usize(size));
        let mut spectrum: Vec<Bin<T>> = Vec::new();
        let mut phase: Vec<T> = Vec::new();
        let mut i: usize = 0;
        while i < size - 1
            invariant
                size == self.dft@.len(),
                size >= 1,
                self.dft@ == old(self).dft@,
                self.wave_map@ == goal.wave_map,
                self.wave_map@.len() == size - 1,
                goal == old(self)@.with_spec_phase(),
                s == self.scale.spec_div(T::spec_from_usize(size)),
                self.scale == old(self).scale,
                i <= size - 1,
                spectrum@.len() == i,
                phase@.len() == i,
                forall|k: int| 0 <= k < i ==> (#[trigger] spectrum@[k])@ == goal.spectrum[k],
                forall|k: int| 0 <= k < i ==> phase@[k] == goal.phase[k],
            decreases size - 1 - i,
        {
            let c = self.wave_map[i].1;
            let bin = self.dft[i + 1];
            let entry: Bin<T> = [bin.norm().mul(s), c.x, c.y, c.z];
            spectrum.push(entry);
            phase.push(bin.arg());
            i += 1;
        }
        self.spectrum = spectrum;
        self.phase = phase;
        assert(self@.spectrum =~= goal.spectrum);
        assert(self@.phase =~= goal.phase);
    }

    /// Sets the scale at which amplitudes are shown and brings those
    /// shown to it.
    pub fn set_scale(&mut self, scale: T)
        ensures
            final(self)@ == old(self)@.with_scale(scale),
    {
        let s = scale.div(self.scale);
        self.scale = scale;
        let ghost goal = old(self)@.with_scale(scale);
        let mut i: usize = 0;
        while i < self.spectrum.len()
            invariant
                goal == old(self)@.with_scale(scale),
                s == scale.spec_div(old(self).scale),
                self.scale == scale,
                self.wave@ == old(self).wave@,
                self.phase@ == old(self).phase@,
                self.dft@ == old(self).dft@,
                self.wave_map@ == old(self).wave_map@,
                self.use_phase == old(self).use_phase,
                self.spectrum@.len() == old(self).spectrum@.len(),
                i <= self.spectrum@.len(),
                forall|k: int| 0 <= k < i ==> (#[trigger] self.spectrum@[k])@ == goal.spectrum[k],
                forall|k: int|
                    i <= k < self.spectrum@.len() ==> #[trigger] self.spectrum@[k] == old(
                        self,
                    ).spectrum@[k],
            decreases self.spectrum@.len() - i,
        {
            let b = self.spectrum[i];
            let entry: Bin<T> = [b[0].mul(s), b[1], b[2], b[3]];
            self.spectrum.set(i, entry);
            i += 1;
        }
        assert(self@.spectrum =~= goal.spectrum);
    }

    pub fn get_scale(&self) -> (r: T)
        ensures
            r == self@.scale,
    {
        self.scale
    }

    /// Says whether edits of the spectrum keep the phases.
    pub fn set_phase(&mut self, phase: bool)
        ensures
            final(self)@ == (WaveDataView { use_phase: phase, ..old(self)@ }),
    {
        self.use_phase = phase;
    }

    /// Sets one sample in time.
    pub fn set_plot_point(&mut self, index: usize, value: T)
        requires
            index < old(self)@.wave.len(),
        ensures
            final(self)@ == (WaveDataView {
                wave: old(self)@.wave.update(index as int, value),
                ..old(self)@
            }),
    {
        self.wave.set(index, value);
    }

    /// Draws a straight line into the samples in time, between the two
    /// anchors and not at them.
    pub fn set_plot_line(&mut self, start: Anchor<T>, end: Anchor<T>)
        ensures
            final(self)@ == (WaveDataView {
                wave: Seq::new(
                    old(self)@.wave.len(),
                    |i: int|
                        if between(start, end, i) {
                            line_value(start, end, i)
                        } else {
                            old(self)@.wave[i]
                        },
                ),
                ..old(self)@
            }),
    {
        fill(&mut self.wave, start, end);
        assert(self@.wave =~= Seq::new(
            old(self)@.wave.len(),
            |i: int|
                if between(start, end, i) {
                    line_value(start, end, i)
                } else {
                    old(self)@.wave[i]
                },
        ));
    }

    /// Sets the amplitude shown at one bin, and the half spectrum's bin
    /// with it.
    pub fn set_spec_point(&mut self, index: usize, value: T)
        requires
            old(self)@.wf(),
            index < old(self)@.bins(),
        ensures
            final(self)@ == old(self)@.with_spec_point(index as int, value),
            final(self)@.wf(),
    {
        let ghost v0 = self@;
        let bin = self.spectrum[index];
        let old_amp = bin[0];
        let entry: Bin<T> = [value, bin[1], bin[2], bin[3]];
        assert(entry@ =~= bin@.update(0, value));
        self.spectrum.set(index, entry);

        let size = self.dft.len();
        let next = if !self.use_phase {
            Complex::new(value.mul(T::from_usize(size)).div(self.scale), T::zero())
        } else if old_amp.same(T::zero()) {
            Complex::from_polar(value.mul(T::from_usize(size)).div(self.scale), self.phase[index])
        } else {
            self.dft[index + 1].scale(value.div(old_amp))
        };
        self.dft.set(index + 1, next);
        assert(self@.spectrum =~= v0.with_spec_point(index as int, value).spectrum);
    }

    /// Sets the phase shown at one bin, and the half spectrum's bin with
    /// it.
    pub fn set_phase_point(&mut self, index: usize, value: T)
        requires
            old(self)@.wf(),
            index < old(self)@.bins(),
        ensures
            final(self)@ == old(self)@.with_phase_point(index as int, value),
            final(self)@.wf(),
    {
        self.phase.set(index, value);
        let bin = self.spectrum[index];
        let amp = bin[0].mul(T::from_usize(self.dft.len())).div(self.scale);
        self.dft.set(index + 1, Complex::from_polar(amp, value));
    }

    /// Draws a straight line into the amplitudes shown, between the two
    /// anchors and not at them, and sets each bin on it as
    /// `set_spec_point` would.
    pub fn set_spec_line(&mut self, start: Anchor<T>, end: Anchor<T>)
        requires
            old(self)@.wf(),
        ensures
            final(self)@ == old(self)@.with_spec_line(start, end),
            final(self)@.wf(),
    {
        let ghost v0 = self@;
        let ghost goal = v0.with_spec_line(start, end);
        if start.0 == end.0 {
            assert(self@.spectrum =~= goal.spectrum);
            assert(self@.dft =~= goal.dft);
            return ;
        }
        let (lo, hi) = if start.0 < end.0 {
            (start, end)
        } else {
            (end, start)
        };
        let diff = hi.1.sub(lo.1);
        let scale = T::one().div(T::from_usize(hi.0 - lo.0));
        let s = T::from_usize(self.dft.len()).div(self.scale);

        let mut i: usize = lo.0 + 1;
        while i < hi.0 && i < self.spectrum.len()
            invariant
                v0 == old(self)@,
                v0.wf(),
                goal == v0.with_spec_line(start, end),
                lo == lower(start, end),
                hi == upper(start, end),
                lo.0 < i <= hi.0,
                diff == hi.1.spec_sub(lo.1),
                scale == T::spec_one().spec_div(T::spec_from_usize((hi.0 - lo.0) as usize)),
                s == v0.size().spec_div(v0.scale),
                self.wave@ == v0.wave,
                self.phase@ == v0.phase,
                self.wave_map@ == v0.wave_map,
                self.scale == v0.scale,
                self.use_phase == v0.use_phase,
                self.spectrum@.len() == v0.spectrum.len(),
                self.dft@.len() == v0.dft.len(),
                forall|k: int|
                    0 <= k < self.spectrum@.len() ==> (#[trigger] self.spectrum@[k])@ == if k < i {
                        goal.spectrum[k]
                    } else {
                        v0.spectrum[k]
                    },
                forall|k: int|
                    0 <= k < self.dft@.len() ==> #[trigger] self.dft@[k] == if k < i + 1 {
                        goal.dft[k]
                    } else {
                        v0.dft[k]
                    },
            decreases hi.0 - i,
        {
            let v = scale.mul(T::from_usize(i - lo.0));
            let amp = lo.1.add(diff.mul(v));
            let bin = self.spectrum[i];
            let old_amp = bin[0];
            let entry: Bin<T> = [amp, bin[1], bin[2], bin[3]];
            self.spectrum.set(i, entry);
            let next = if !self.use_phase {
                Complex::new(amp.mul(s), T::zero())
            } else if old_amp.same(T::zero()) {
                Complex::from_polar(amp.mul(s), self.phase[i])
            } else {
                self.dft[i + 1].scale(amp.div(old_amp))
            };
            self.dft.set(i + 1, next);
            i += 1;
        }
        assert(self@.spectrum =~= goal.spectrum);
        assert(self@.dft =~= goal.dft);
    }

    /// Draws a straight line into the phases shown, between the two
    /// anchors and not at them, and sets each bin on it as
    /// `set_phase_point` would.
    pub fn set_phase_line(&mut self, start: Anchor<T>, end: Anchor<T>)
        requires
            old(self)@.wf(),
        ensures
            final(self)@ == old(self)@.with_phase_line(start, end),
            final(self)@.wf(),
    {
        let ghost v0 = self@;
        let ghost goal = v0.with_phase_line(start, end);
        if start.0 == end.0 {
            assert(self@.phase =~= goal.phase);
            assert(self@.dft =~= goal.dft);
            return ;
        }
        let (lo, hi) = if start.0 < end.0 {
            (start, end)
        } else {
            (end, start)
        };
        let diff = hi.1.sub(lo.1);
        let scale = T::one().div(T::from_usize(hi.0 - lo.0));
        let s = T::from_usize(self.dft.len()).div(self.scale);

        let mut i: usize = lo.0 + 1;
        while i < hi.0 && i < self.phase.len()
            invariant
                v0 == old(self)@,
                v0.wf(),
                goal == v0.with_phase_line(start, end),
                lo == lower(start, end),
                hi == upper(start, end),
                lo.0 < i <= hi.0,
                diff == hi.1.spec_sub(lo.1),
                scale == T::spec_one().spec_div(T::spec_from_usize((hi.0 - lo.0) as usize)),
                s == v0.size().spec_div(v0.scale),
                self.wave@ == v0.wave,
                self@.spectrum == v0.spectrum,
                self.wave_map@ == v0.wave_map,
                self.scale == v0.scale,
                self.use_phase == v0.use_phase,
                self.phase@.len() == v0.phase.len(),
                self.dft@.len() == v0.dft.len(),
                forall|k: int|
                    0 <= k < self.phase@.len() ==> #[trigger] self.phase@[k] == if k < i {
                        goal.phase[k]
                    } else {
                        v0.phase[k]
                    },
                forall|k: int|
                    0 <= k < self.dft@.len() ==> #[trigger] self.dft@[k] == if k < i + 1 {
                        goal.dft[k]
                    } else {
                        v0.dft[k]
                    },
            decreases hi.0 - i,
        {
            let v = scale.mul(T::from_usize(i - lo.0));
            let new = lo.1.add(diff.mul(v));
            self.phase.set(i, new);
            let bin = self.spectrum[i];
            let amp = bin[0].mul(s);
            self.dft.set(i + 1, Complex::from_polar(amp, new));
            i += 1;
        }
        assert(self@.phase =~= goal.phase);
        assert(self@.dft =~= goal.dft);
    }
}

impl<T: Scalar> Clone for WaveData<T> {
    fn clone(&self) -> (r: Self)
        ensures
            r@ == self@,
    {
        WaveData {
            wave: copy_of(&self.wave),
            spectrum: copy_of(&self.spectrum),
            phase: copy_of(&self.phase),
            dft: copy_of(&self.dft),
            wave_map: copy_of(&self.wave_map),
            scale: self.scale,
            use_phase: self.use_phase,
        }
    }
}

impl<T: Scalar> Default for WaveData<T> {
    /// No samples, nothing shown, scale zero, phases not in use.
    fn default() -> (r: Self)
        ensures
            r@ == (WaveDataView {
                wave: Seq::empty(),
                spectrum: Seq::empty(),
                phase: Seq::empty(),
                dft: Seq::empty(),
                wave_map: Seq::empty(),
                scale: T::spec_zero(),
                use_phase: false,
            }),
    {
        let r = WaveData {
            wave: Vec::new(),
            spectrum: Vec::new(),
            phase: Vec::new(),
            dft: Vec::new(),
            wave_map: Vec::new(),
            scale: T::zero(),
            use_phase: false,
        };
        assert(r@.spectrum =~= Seq::<Seq<T>>::empty());
        r
    }
}

} // verus!

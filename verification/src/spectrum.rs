//! From samples in time to a half spectrum, and back.

use crate::complex::Complex;
use crate::fft::{dft, grown, lemma_transform_len, transform, TransformError, WCache};
use crate::pow2::{bit_length, next_power_of_2, power_of_2, two_to};
use crate::repeat_until::RepeatUntil;
use crate::scalar::Scalar;
use vstd::arithmetic::power2::{is_pow2, pow2};
use vstd::prelude::*;

verus! {

/// The length to which `len` samples are padded: twice the least power
/// of two above `len`.
pub open spec fn padded_len(len: nat) -> nat {
    2 * pow2(bit_length(len))
}

/// The samples `plot` as complex numbers, repeated from the start as
/// often as it takes to fill the padded length.
pub open spec fn padded<T: Scalar>(plot: Seq<T>) -> Seq<Complex<T>> {
    Seq::new(
        padded_len(plot.len()),
        |i: int| Complex::spec_from_real(plot[i % (plot.len() as int)]),
    )
}

/// The factor that `form_plot` applies to a half spectrum of `len + 1`
/// bins: one over twice `len`.
pub open spec fn plot_scale<T: Scalar>(len: nat) -> T {
    T::spec_one().spec_div(T::spec_from_usize((2 * len) as usize))
}

/// The full spectrum behind the half spectrum `half` of `len + 1` bins:
/// the bins as they are, then the conjugates of bins `len - 1` down to 1,
/// all times `plot_scale(len)`. Bin 0 and bin `len` have no mirror image.
pub open spec fn mirrored<T: Scalar>(half: Seq<Complex<T>>) -> Seq<Complex<T>> {
    let len = (half.len() - 1) as nat;
    let s = plot_scale::<T>(len);
    Seq::new(
        2 * len,
        |i: int|
            if i <= len {
                half[i].spec_scale(s)
            } else {
                half[2 * len - i].spec_conj().spec_scale(s)
            },
    )
}

/// The half spectrum of the real samples `plot`: bins 0 to `h` of the
/// transform of the padded samples, where `2 h` is the padded length.
///
/// The cache is grown to the padded length first. Samples there must be:
/// nothing can be repeated out of an empty `plot`.
pub fn dft_analysis<T: Scalar>(wn: &mut WCache<T>, plot: &[T]) -> (r: Result<
    Vec<Complex<T>>,
    TransformError,
>)
    requires
        old(wn).wf(),
        bit_length(plot@.len()) + 1 < usize::BITS,
    ensures
        final(wn).wf(),
        final(wn).inverted() == old(wn).inverted(),
        final(wn).max_power() == grown(old(wn).max_power(), bit_length(plot@.len()) + 1),
        r.is_ok() <==> plot@.len() > 0,
        r matches Ok(v) ==> v@ == transform(padded(plot@), old(wn).inverted()).take(
            (padded_len(plot@.len()) / 2 + 1) as int,
        ) && v@.len() == padded_len(plot@.len()) / 2 + 1,
        r.is_err() ==> r == Err::<Vec<Complex<T>>, TransformError>(TransformError::InvalidLength),
{
    let power = next_power_of_2(plot.len()) as usize;
    let hs = two_to(power);
    proof {
        vstd::arithmetic::power2::lemma_pow2_unfold((power + 1) as nat);
        vstd::bits::lemma_usize_pow2_no_overflow((power + 1) as nat);
    }
    let total = 2 * hs;

    let mut data: Vec<Complex<T>> = Vec::new();
    let mut it = RepeatUntil::new(plot, total);
    let mut item = it.next();
    while item.is_some()
        invariant
            it.source() == plot@,
            it.limit() == total,
            it.taken() == data@.len() + if item.is_some() {
                1nat
            } else {
                0nat
            },
            item matches Some(v) ==> *v == plot@[(data@.len() as int) % (plot@.len() as int)]
                && plot@.len() > 0,
            item.is_none() ==> !it.has_next(),
            it.taken() <= total || plot@.len() == 0,
            forall|i: int|
                0 <= i < data@.len() ==> data@[i] == Complex::spec_from_real(
                    plot@[i % (plot@.len() as int)],
                ),
        decreases total - data@.len(),
    {
        let v = item.unwrap();
        data.push(Complex::from_real(*v));
        item = it.next();
    }
    wn.ensure_max_power(power + 1);
    if plot.len() == 0 {
        proof {
            reveal(is_pow2);
        }
        return Err(TransformError::InvalidLength);
    }
    proof {
        assert(data@ =~= padded(plot@));
        lemma_transform_len(padded(plot@), wn.inverted());
        crate::pow2::lemma_pow2_is_pow2((power + 1) as nat);
        crate::pow2::lemma_bit_length_pow2((power + 1) as nat);
    }
    match dft(wn, &mut data) {
        Ok(()) => {
            data.truncate(hs + 1);
            Ok(data)
        },
        Err(e) => Err(e),
    }
}

/// The samples in time behind the half spectrum `half`: the first
/// `out_size` items of the transform of its mirrored, scaled full
/// spectrum, or all of them where there are fewer.
///
/// `half` has to hold one bin more than a power of two; any other length
/// is refused. The cache is grown to twice that power first.
pub fn form_plot<T: Scalar>(wn: &mut WCache<T>, half: &[Complex<T>], out_size: usize) -> (r: Result<
    Vec<Complex<T>>,
    TransformError,
>)
    requires
        old(wn).wf(),
        2 * (half@.len() - 1) <= usize::MAX,
    ensures
        final(wn).wf(),
        final(wn).inverted() == old(wn).inverted(),
        r.is_ok() <==> is_pow2(half@.len() - 1),
        r.is_ok() ==> final(wn).max_power() == grown(
            old(wn).max_power(),
            bit_length((half@.len() - 1) as nat),
        ),
        r.is_err() ==> final(wn).max_power() == old(wn).max_power(),
        r matches Ok(v) ==> v@ == transform(mirrored(half@), old(wn).inverted()).take(
            if out_size <= 2 * (half@.len() - 1) {
                out_size as int
            } else {
                2 * (half@.len() - 1)
            },
        ) && v@.len() == if out_size <= 2 * (half@.len() - 1) {
            out_size as int
        } else {
            2 * (half@.len() - 1)
        },
        r.is_err() ==> r == Err::<Vec<Complex<T>>, TransformError>(TransformError::InvalidLength),
{
    if half.len() == 0 {
        proof {
            reveal(is_pow2);
        }
        return Err(TransformError::InvalidLength);
    }
    let len = half.len() - 1;
    if !power_of_2(len) {
        return Err(TransformError::InvalidLength);
    }
    proof {
        crate::pow2::lemma_is_pow2_as_pow2(len as nat);
        vstd::arithmetic::power2::lemma_pow2_pos((bit_length(len as nat) - 1) as nat);
    }
    let power = next_power_of_2(len) as usize;
    let s = T::one().div(T::from_usize(2 * len));

    let mut data: Vec<Complex<T>> = Vec::new();
    let mut i: usize = 0;
    while i <= len
        invariant
            len + 1 == half@.len(),
            len >= 1,
            2 * len <= usize::MAX,
            s == plot_scale::<T>(len as nat),
            i <= len + 1,
            data@.len() == i,
            forall|t: int| 0 <= t < i ==> data@[t] == mirrored(half@)[t],
        decreases len + 1 - i,
    {
        data.push(half[i].scale(s));
        i += 1;
    }
    let mut back: usize = len;
    while back > 1
        invariant
            len + 1 == half@.len(),
            2 * len <= usize::MAX,
            s == plot_scale::<T>(len as nat),
            1 <= back <= len,
            data@.len() == 2 * len + 1 - back,
            forall|t: int| 0 <= t < data@.len() ==> data@[t] == mirrored(half@)[t],
        decreases back,
    {
        back -= 1;
        data.push(half[back].conj().scale(s));
    }
    proof {
        assert(data@ =~= mirrored(half@));
        lemma_transform_len(mirrored(half@), wn.inverted());
        crate::pow2::lemma_is_pow2_as_pow2(len as nat);
        let e = (bit_length(len as nat) - 1) as nat;
        vstd::arithmetic::power2::lemma_pow2_unfold(e + 1);
        crate::pow2::lemma_pow2_is_pow2(e + 1);
        crate::pow2::lemma_bit_length_pow2(e + 1);
        crate::pow2::lemma_bit_length_bounds((2 * len) as nat);
        if power >= usize::BITS {
            vstd::arithmetic::power2::lemma2_to64();
        }
    }
    wn.ensure_max_power(power);
    match dft(wn, &mut data) {
        Ok(()) => {
            data.truncate(out_size);
            Ok(data)
        },
        Err(e) => Err(e),
    }
}

} // verus!

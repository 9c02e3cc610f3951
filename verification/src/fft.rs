//! Tables of roots of unity and the transform built on them.

use crate::complex::Complex;
use crate::pow2::{bit_length, lemma_is_pow2_as_pow2, next_power_of_2, power_of_2, two_to};
use crate::scalar::Scalar;
use crate::util::copy_of;
use vstd::arithmetic::power2::{is_pow2, pow2};
use vstd::prelude::*;

verus! {

/// Why a transform was not carried out.
#[derive(Clone, Copy, Debug, PartialEq, Eq, Structural)]
pub enum TransformError {
    /// The data's length is not a power of two.
    InvalidLength,
}

/// The step between neighbouring roots of a transform of size `n`: the
/// point of the unit circle one `n`-th of a turn from one, forwards, or
/// backwards when `invert` is set.
pub open spec fn primitive_root<T: Scalar>(n: usize, invert: bool) -> Complex<T> {
    if invert {
        Complex::spec_cis(T::spec_tau().spec_neg().spec_div(T::spec_from_usize(n)))
    } else {
        Complex::spec_cis(T::spec_tau().spec_div(T::spec_from_usize(n)))
    }
}

/// `w` multiplied up `k` times, starting from one: each power is the one
/// before it times `w`, so that rounding builds up by products alone.
pub open spec fn root_power<T: Scalar>(w: Complex<T>, k: nat) -> Complex<T>
    decreases k,
{
    if k == 0 {
        Complex::spec_one()
    } else {
        root_power(w, (k - 1) as nat).spec_mul(w)
    }
}

/// The first half of the roots of unity of a transform of size `n`, in
/// order: entry `k` is the `k`-th power of the primitive root.
pub open spec fn root_table<T: Scalar>(n: usize, invert: bool) -> Seq<Complex<T>> {
    Seq::new(
        ((n + 1) / 2) as nat,
        |k: int| root_power(primitive_root::<T>(n, invert), k as nat),
    )
}

/// Computes the first half of the roots of unity of a transform of size
/// `n`. One call of `cos` and `sin` gives the primitive root; all further
/// entries come from repeated multiplication.
pub fn compute_nth_roots<T: Scalar>(n: usize, invert: bool) -> (r: Vec<Complex<T>>)
    ensures
        r@ == root_table::<T>(n, invert),
{
    let hn = n / 2 + n % 2;
    let mut result: Vec<Complex<T>> = Vec::new();
    if hn == 0 {
        return result;
    }
    let wn = if invert {
        Complex::cis(T::tau().neg().div(T::from_usize(n)))
    } else {
        Complex::cis(T::tau().div(T::from_usize(n)))
    };
    let mut w = Complex::<T>::one();
    result.push(w);
    let mut k: usize = 1;
    while k < hn
        invariant
            1 <= k <= hn,
            result@.len() == k,
            wn == primitive_root::<T>(n, invert),
            w == root_power(wn, (k - 1) as nat),
            forall|i: int| 0 <= i < k ==> result@[i] == root_power(wn, i as nat),
        decreases hn - k,
    {
        w = w.mul(wn);
        result.push(w);
        k += 1;
    }
    result
}

/// The items of `x` at the even positions.
pub open spec fn evens<A>(x: Seq<A>) -> Seq<A> {
    Seq::new(x.len() / 2, |i: int| x[2 * i])
}

/// The items of `x` at the odd positions.
pub open spec fn odds<A>(x: Seq<A>) -> Seq<A> {
    Seq::new(x.len() / 2, |i: int| x[2 * i + 1])
}

/// The transform of `x`, by halving: the transforms `e` of the even and
/// `o` of the odd items are combined, for each `k` below half the length
/// `h`, into `e[k] + w[k] o[k]` at `k` and `e[k] - w[k] o[k]` at `h + k`,
/// with `w` the root table of the length of `x`. This fixes not only the
/// value but every rounding on the way to it.
///
/// It is meant for lengths that are powers of two.
pub open spec fn transform<T: Scalar>(x: Seq<Complex<T>>, invert: bool) -> Seq<Complex<T>>
    decreases x.len(),
{
    if x.len() < 2 {
        x
    } else {
        let h = (x.len() / 2) as int;
        let e = transform(evens(x), invert);
        let o = transform(odds(x), invert);
        let w = root_table::<T>(x.len() as usize, invert);
        Seq::new(
            x.len(),
            |k: int|
                if k < h {
                    e[k].spec_add(w[k].spec_mul(o[k]))
                } else {
                    e[k - h].spec_sub(w[k - h].spec_mul(o[k - h]))
                },
        )
    }
}

/// One pass of butterflies over `d` with the roots `w`, for groups of
/// `hs` neighbours. With `hn` half the length of `d`, the pairs
/// `d[2 j hs + i]` and `d[2 j hs + hs + i]` (for `i` below `hs`) meet with
/// root `w[j]`; their sum lands at `j hs + i`, their difference at
/// `hn + j hs + i`.
spec fn stage<T: Scalar>(w: Seq<Complex<T>>, d: Seq<Complex<T>>, hs: int) -> Seq<
    Complex<T>,
> {
    let hn = (d.len() / 2) as int;
    Seq::new(
        d.len(),
        |idx: int|
            {
                let r = if idx < hn {
                    idx
                } else {
                    idx - hn
                };
                let j = r / hs;
                let a = d[r + j * hs];
                let b = d[r + j * hs + hs];
                if idx < hn {
                    a.spec_add(w[j].spec_mul(b))
                } else {
                    a.spec_sub(w[j].spec_mul(b))
                }
            },
    )
}

/// Every `stride`-th item of `x` from `start` on, `count` of them.
spec fn strided<A>(x: Seq<A>, start: int, stride: int, count: int) -> Seq<A> {
    Seq::new(count as nat, |t: int| x[start + t * stride])
}

/// The item of `buf` in row `k` and column `i`, for rows of `hs` items.
spec fn entry<A>(buf: Seq<A>, hs: int, k: int, i: int) -> A {
    buf[k * hs + i]
}

/// What the passes have reached when `count` rows of `stride` items
/// stand in `buf`: column `i` holds the transform of the items of `x`
/// that lie `stride` apart, from `i` on.
spec fn staged<T: Scalar>(
    x: Seq<Complex<T>>,
    invert: bool,
    buf: Seq<Complex<T>>,
    stride: int,
    count: int,
) -> bool {
    &&& buf.len() == x.len()
    &&& x.len() == stride * count
    &&& forall|k: int, i: int|
        0 <= k < count && 0 <= i < stride ==> #[trigger] entry(buf, stride, k, i) == transform(
            strided(x, i, stride, count),
            invert,
        )[k]
}

/// The transform keeps the length.
pub proof fn lemma_transform_len<T: Scalar>(x: Seq<Complex<T>>, invert: bool)
    ensures
        transform(x, invert).len() == x.len(),
{
}

/// Before the first pass the data itself stands there, as one row.
proof fn lemma_staged_start<T: Scalar>(x: Seq<Complex<T>>, invert: bool)
    ensures
        staged(x, invert, x, x.len() as int, 1),
{
    let n = x.len() as int;
    assert forall|k: int, i: int| 0 <= k < 1 && 0 <= i < n implies #[trigger] entry(x, n, k, i)
        == transform(strided(x, i, n, 1), invert)[k] by {
        assert(k * n + i == i) by (nonlinear_arith)
            requires
                k == 0,
        ;
    }
}

/// After the last pass the rows are single items: the transform of `x`.
proof fn lemma_staged_end<T: Scalar>(x: Seq<Complex<T>>, invert: bool, buf: Seq<Complex<T>>)
    requires
        staged(x, invert, buf, 1, x.len() as int),
    ensures
        buf == transform(x, invert),
{
    let n = x.len() as int;
    assert(strided(x, 0, 1, n) =~= x);
    assert forall|k: int| 0 <= k < n implies buf[k] == transform(x, invert)[k] by {
        assert(entry(buf, 1, k, 0) == buf[k]);
    }
}

/// One pass carries the rows from `count` of `2 hs` items to twice as
/// many of `hs` items.
proof fn lemma_stage_step<T: Scalar>(
    x: Seq<Complex<T>>,
    invert: bool,
    d: Seq<Complex<T>>,
    w: Seq<Complex<T>>,
    hs: int,
    count: int,
)
    requires
        hs >= 1,
        count >= 1,
        staged(x, invert, d, 2 * hs, count),
        w == root_table::<T>((2 * count) as usize, invert),
    ensures
        staged(x, invert, stage(w, d, hs), hs, 2 * count),
{
    let out = stage(w, d, hs);
    let hn = hs * count;
    assert((2 * hs) * count == 2 * hn && hs * (2 * count) == 2 * hn) by (nonlinear_arith)
        requires
            hn == hs * count,
    ;
    assert forall|k: int, i: int| 0 <= k < 2 * count && 0 <= i < hs implies #[trigger] entry(
        out,
        hs,
        k,
        i,
    ) == transform(strided(x, i, hs, 2 * count), invert)[k] by {
        let j = if k < count {
            k
        } else {
            k - count
        };
        let r = j * hs + i;
        let idx = k * hs + i;
        assert(0 <= r < hn && (k < count ==> idx == r) && (k >= count ==> idx == hn + r)) by (nonlinear_arith)
            requires
                0 <= j < count,
                0 <= i < hs,
                r == j * hs + i,
                idx == k * hs + i,
                hn == hs * count,
                j == if k < count {
                    k
                } else {
                    k - count
                },
        ;
        vstd::arithmetic::div_mod::lemma_fundamental_div_mod_converse(r, hs, j, i);
        assert(r + j * hs == j * (2 * hs) + i && r + j * hs + hs == j * (2 * hs) + (i + hs))
            by (nonlinear_arith)
            requires
                r == j * hs + i,
        ;
        let full = strided(x, i, hs, 2 * count);
        let ev = strided(x, i, 2 * hs, count);
        let od = strided(x, i + hs, 2 * hs, count);
        assert(evens(full) =~= ev) by {
            assert forall|t: int| 0 <= t < count implies evens(full)[t] == ev[t] by {
                assert(i + (2 * t) * hs == i + t * (2 * hs)) by (nonlinear_arith);
            }
        }
        assert(odds(full) =~= od) by {
            assert forall|t: int| 0 <= t < count implies odds(full)[t] == od[t] by {
                assert(i + (2 * t + 1) * hs == i + hs + t * (2 * hs)) by (nonlinear_arith);
            }
        }
        assert(entry(d, 2 * hs, j, i) == transform(ev, invert)[j]);
        assert(entry(d, 2 * hs, j, i + hs) == transform(od, invert)[j]);
    }
}

/// Root tables for every transform size from 2 up to two to the
/// `max_power`, all for one direction of rotation.
///
/// The table for size two to the `p` is fixed by `p` and the direction, so
/// a cache is known by its `max_power` and its direction alone. It only
/// ever grows; turning the direction round rebuilds it at the same depth.
pub struct WCache<T> {
    nth_roots: Vec<Vec<Complex<T>>>,
    invert: bool,
}

/// The depth of a cache of depth `depth` once it has been asked to reach
/// `power`: the greater of the two.
pub open spec fn grown(depth: nat, power: nat) -> nat {
    if depth >= power {
        depth
    } else {
        power
    }
}

/// Growth never shrinks: a cache that was grown to `p` and is then asked
/// for less stays as deep as it was, and so still serves `p`.
pub proof fn lemma_growth_never_shrinks(depth: nat, p: nat, q: nat)
    requires
        q <= p,
    ensures
        grown(grown(depth, p), q) == grown(depth, p),
        grown(grown(depth, p), q) >= p,
{
}

impl<T: Scalar> WCache<T> {
    /// Every table held is the one its size and the direction call for,
    /// and the sizes fit the machine's word.
    pub closed spec fn wf(self) -> bool {
        &&& self.nth_roots@.len() < usize::BITS
        &&& forall|x: int|
            0 <= x < self.nth_roots@.len() ==> (#[trigger] self.nth_roots@[x])@ == root_table::<T>(
                pow2((x + 1) as nat) as usize,
                self.invert,
            )
    }

    /// The greatest `p` for which the table of size two to the `p` is held.
    pub closed spec fn max_power(self) -> nat {
        self.nth_roots@.len()
    }

    /// Whether the roots turn backwards.
    pub closed spec fn inverted(self) -> bool {
        self.invert
    }

    /// A cache that holds the table for size 2.
    pub fn new(invert: bool) -> (r: Self)
        ensures
            r.wf(),
            r.max_power() == 1,
            r.inverted() == invert,
    {
        let first = compute_nth_roots::<T>(2, invert);
        let mut nth_roots: Vec<Vec<Complex<T>>> = Vec::new();
        nth_roots.push(first);
        proof {
            vstd::arithmetic::power2::lemma2_to64();
        }
        WCache { nth_roots, invert }
    }

    /// The table for transforms of size two to the `power`: its first
    /// half of the roots of unity.
    pub fn get_nth_roots(&self, power: usize) -> (r: &[Complex<T>])
        requires
            self.wf(),
            1 <= power <= self.max_power(),
        ensures
            r@ == root_table::<T>(pow2(power as nat) as usize, self.inverted()),
            power < usize::BITS,
    {
        self.nth_roots[power - 1].as_slice()
    }

    /// Grows the cache until it holds the tables up to size two to the
    /// `power`. A cache that already reaches that far is left as it is.
    pub fn ensure_max_power(&mut self, power: usize)
        requires
            old(self).wf(),
            power < usize::BITS,
        ensures
            final(self).wf(),
            final(self).inverted() == old(self).inverted(),
            final(self).max_power() == grown(old(self).max_power(), power as nat),
    {
        let len = self.nth_roots.len();
        if len >= power {
            return ;
        }
        let mut x = len;
        while x < power
            invariant
                len <= x <= power < usize::BITS,
                self.invert == old(self).invert,
                self.nth_roots@.len() == x,
                forall|i: int|
                    0 <= i < self.nth_roots@.len() ==> (#[trigger] self.nth_roots@[i])@
                        == root_table::<T>(pow2((i + 1) as nat) as usize, self.invert),
            decreases power - x,
        {
            let table = compute_nth_roots::<T>(two_to(x + 1), self.invert);
            self.nth_roots.push(table);
            x += 1;
        }
    }

    /// Sets the direction of rotation. Where it changes, every table held
    /// is thrown away and computed afresh for the new direction, to the
    /// same depth.
    pub fn set_invert(&mut self, invert: bool)
        requires
            old(self).wf(),
        ensures
            final(self).wf(),
            final(self).inverted() == invert,
            final(self).max_power() == old(self).max_power(),
    {
        if self.invert == invert {
            return ;
        }
        let power = self.nth_roots.len();
        self.nth_roots.clear();
        self.invert = invert;
        self.ensure_max_power(power);
    }
}

/// `n` zeros.
fn zeros<T: Scalar>(n: usize) -> (r: Vec<Complex<T>>)
    ensures
        r@.len() == n,
{
    let mut r: Vec<Complex<T>> = Vec::new();
    let mut i: usize = 0;
    while i < n
        invariant
            i <= n,
            r@.len() == i,
        decreases n - i,
    {
        r.push(Complex::zero());
        i += 1;
    }
    r
}

/// One pass: reads `din`, writes every item of `dout`.
fn butterflies<T: Scalar>(
    w: &[Complex<T>],
    din: &Vec<Complex<T>>,
    dout: &mut Vec<Complex<T>>,
    hs: usize,
    hj: usize,
    hn: usize,
)
    requires
        hs >= 1,
        hj >= 1,
        hn == hs * hj,
        2 * hn <= usize::MAX,
        din@.len() == 2 * hn,
        old(dout)@.len() == 2 * hn,
        w@.len() >= hj,
    ensures
        final(dout)@ == stage(w@, din@, hs as int),
{
    let ghost goal = stage(w@, din@, hs as int);
    let mut base: usize = 0;
    let mut j: usize = 0;
    while j < hj
        invariant
            hs >= 1,
            hn == hs * hj,
            2 * hn <= usize::MAX,
            din@.len() == 2 * hn,
            dout@.len() == 2 * hn,
            w@.len() >= hj,
            goal == stage(w@, din@, hs as int),
            j <= hj,
            base == j * hs,
            base <= hn,
            forall|r: int| 0 <= r < base ==> dout@[r] == goal[r],
            forall|r: int| hn <= r < hn + base ==> dout@[r] == goal[r],
        decreases hj - j,
    {
        let wj = w[j];
        assert(base + hs <= hn) by (nonlinear_arith)
            requires
                base == j * hs,
                hn == hs * hj,
                j < hj,
        ;
        let k = 2 * base;
        let mut i: usize = 0;
        while i < hs
            invariant
                hs >= 1,
                2 * hn <= usize::MAX,
                din@.len() == 2 * hn,
                dout@.len() == 2 * hn,
                goal == stage(w@, din@, hs as int),
                j < hj <= w@.len(),
                wj == w@[j as int],
                base == j * hs,
                k == 2 * base,
                base + hs <= hn,
                i <= hs,
                forall|r: int| 0 <= r < base + i ==> dout@[r] == goal[r],
                forall|r: int| hn <= r < hn + base + i ==> dout@[r] == goal[r],
            decreases hs - i,
        {
            let j1 = i + k;
            let j2 = j1 + hs;
            let y0 = din[j1];
            let y1 = din[j2];
            let wy = wj.mul(y1);
            let j3 = i + base;
            proof {
                vstd::arithmetic::div_mod::lemma_fundamental_div_mod_converse(
                    j3 as int,
                    hs as int,
                    j as int,
                    i as int,
                );
            }
            dout.set(j3, y0.add(wy));
            dout.set(j3 + hn, y0.sub(wy));
            i += 1;
        }
        base += hs;
        j += 1;
        assert(base == j * hs) by (nonlinear_arith)
            requires
                base == (j - 1) * hs + hs,
        ;
    }
    assert(base == hn) by (nonlinear_arith)
        requires
            base == j * hs,
            hn == hs * hj,
            j == hj,
    ;
}

/// Transforms `y` in place, for a length of two to the `power`.
///
/// The passes go from one buffer to the other and back, `y` being the
/// first to be read. The passes are counted from one, and the count ends
/// one beyond their number: where it ends even the result stands in the
/// second buffer and is brought back to `y`, else it stands in `y`
/// already. No item is ever reordered by bit reversal: each pass writes
/// its sums to the front half and its differences to the back.
pub fn fft_iterative_v2<T: Scalar>(wn: &WCache<T>, y: &mut Vec<Complex<T>>, power: usize)
    requires
        wn.wf(),
        power <= wn.max_power(),
        old(y)@.len() == pow2(power as nat),
    ensures
        final(y)@ == transform(old(y)@, wn.inverted()),
{
    let n = y.len();
    let ghost x = y@;
    let ghost invert = wn.inverted();
    let mut buffer = zeros::<T>(n);

    let hn = n / 2;
    let mut hs = hn;
    let mut hj: usize = 1;
    let mut p: usize = 1;
    let mut in_y = true;
    proof {
        lemma_staged_start(x, invert);
        reveal(vstd::arithmetic::power::pow);
        vstd::arithmetic::power2::lemma_pow2_pos(power as nat);
        if power > 0 {
            vstd::arithmetic::power2::lemma_pow2_pos((power - 1) as nat);
            vstd::arithmetic::power2::lemma_pow2_unfold(power as nat);
        }
    }
    while hs >= 1
        invariant
            wn.wf(),
            invert == wn.inverted(),
            power <= wn.max_power() < usize::BITS,
            n == pow2(power as nat),
            hn == n / 2,
            x.len() == n,
            y@.len() == n,
            buffer@.len() == n,
            1 <= p <= power + 1,
            hj == pow2((p - 1) as nat),
            p <= power ==> hs == pow2((power - p) as nat),
            p == power + 1 ==> hs == 0,
            in_y == (p % 2 == 1),
            2 * hs * hj == n || hs == 0,
            staged(x, invert, if in_y { y@ } else { buffer@ }, if hs == 0 { 1 } else { 2 * hs }, hj as int),
        decreases power + 1 - p,
    {
        proof {
            vstd::arithmetic::power2::lemma_pow2_unfold(p as nat);
            if p < power {
                vstd::arithmetic::power2::lemma_pow2_unfold((power - p) as nat);
            } else {
                reveal(vstd::arithmetic::power::pow);
            }
            vstd::bits::lemma_usize_pow2_no_overflow(p as nat);
            assert(2 * (hs * hj) == n) by (nonlinear_arith)
                requires
                    2 * hs * hj == n,
            ;
        }
        let w = wn.get_nth_roots(p);
        if in_y {
            proof {
                lemma_stage_step(x, invert, y@, w@, hs as int, hj as int);
            }
            butterflies(w, y, &mut buffer, hs, hj, hn);
        } else {
            proof {
                lemma_stage_step(x, invert, buffer@, w@, hs as int, hj as int);
            }
            butterflies(w, &buffer, y, hs, hj, hn);
        }
        hj += hj;
        hs = hs / 2;
        p += 1;
        in_y = !in_y;
        proof {
            if hs > 0 {
                assert(2 * hs * hj == n) by (nonlinear_arith)
                    requires
                        2 * (2 * hs) * (hj / 2) == n,
                        hj % 2 == 0,
                ;
            }
        }
    }
    if p % 2 == 0 {
        proof {
            lemma_staged_end(x, invert, buffer@);
        }
        *y = buffer;
    } else {
        proof {
            lemma_staged_end(x, invert, y@);
        }
    }
}

/// Transforms `y` in place, in the direction of the cache `wn`.
///
/// A length that is not a power of two is refused and `y` is left as it
/// was. The cache has to reach the length of `y`.
pub fn dft<T: Scalar>(wn: &WCache<T>, y: &mut Vec<Complex<T>>) -> (r: Result<(), TransformError>)
    requires
        wn.wf(),
        is_pow2(old(y)@.len() as int) ==> bit_length(old(y)@.len()) <= wn.max_power() + 1,
    ensures
        r.is_ok() <==> is_pow2(old(y)@.len() as int),
        r.is_ok() ==> final(y)@ == transform(old(y)@, wn.inverted()),
        r.is_err() ==> r == Err::<(), TransformError>(TransformError::InvalidLength) && final(y)@
            == old(y)@,
{
    if !power_of_2(y.len()) {
        return Err(TransformError::InvalidLength);
    }
    proof {
        lemma_is_pow2_as_pow2(y@.len());
    }
    let power = next_power_of_2(y.len()) - 1;
    fft_iterative_v2(wn, y, power as usize);
    Ok(())
}

impl<T: Scalar> Clone for WCache<T> {
    /// A cache of its own with the same tables.
    fn clone(&self) -> (r: Self)
        ensures
            r.max_power() == self.max_power(),
            r.inverted() == self.inverted(),
            self.wf() ==> r.wf(),
    {
        let mut nth_roots: Vec<Vec<Complex<T>>> = Vec::new();
        let mut i: usize = 0;
        while i < self.nth_roots.len()
            invariant
                i <= self.nth_roots@.len(),
                nth_roots@.len() == i,
                forall|k: int| 0 <= k < i ==> (#[trigger] nth_roots@[k])@ == self.nth_roots@[k]@,
            decreases self.nth_roots@.len() - i,
        {
            nth_roots.push(copy_of(&self.nth_roots[i]));
            i += 1;
        }
        WCache { nth_roots, invert: self.invert }
    }
}

impl<T: Scalar> Default for WCache<T> {
    /// A forward cache that holds no table yet.
    fn default() -> (r: Self)
        ensures
            r.wf(),
            r.max_power() == 0,
            !r.inverted(),
    {
        WCache { nth_roots: Vec::new(), invert: false }
    }
}

} // verus!

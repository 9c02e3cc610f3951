use slitwave::{compute_nth_roots, dft, fft_iterative_v2, Complex, Scalar, TransformError, WCache};

#[derive(Clone, Copy, Debug, PartialEq)]
struct R(f64);

impl Scalar for R {
    fn spec_zero() -> Self { Self::zero() }
    fn zero() -> Self { R(0.0) }
    fn spec_one() -> Self { Self::one() }
    fn one() -> Self { R(1.0) }
    fn spec_pi() -> Self { Self::pi() }
    fn pi() -> Self { R(std::f64::consts::PI) }
    fn spec_tau() -> Self { Self::tau() }
    fn tau() -> Self { R(std::f64::consts::TAU) }
    fn spec_max_value() -> Self { Self::max_value() }
    fn max_value() -> Self { R(f64::MAX) }
    fn spec_from_usize(n: usize) -> Self { Self::from_usize(n) }
    fn from_usize(n: usize) -> Self { R(n as f64) }
    fn spec_to_usize(self) -> usize { self.to_usize() }
    fn to_usize(self) -> usize { self.0 as usize }
    fn spec_add(self, rhs: Self) -> Self { self.add(rhs) }
    fn add(self, rhs: Self) -> Self { R(self.0 + rhs.0) }
    fn spec_sub(self, rhs: Self) -> Self { self.sub(rhs) }
    fn sub(self, rhs: Self) -> Self { R(self.0 - rhs.0) }
    fn spec_mul(self, rhs: Self) -> Self { self.mul(rhs) }
    fn mul(self, rhs: Self) -> Self { R(self.0 * rhs.0) }
    fn spec_div(self, rhs: Self) -> Self { self.div(rhs) }
    fn div(self, rhs: Self) -> Self { R(self.0 / rhs.0) }
    fn spec_rem(self, rhs: Self) -> Self { self.rem(rhs) }
    fn rem(self, rhs: Self) -> Self { R(self.0 % rhs.0) }
    fn spec_neg(self) -> Self { self.neg() }
    fn neg(self) -> Self { R(-self.0) }
    fn spec_abs(self) -> Self { self.abs() }
    fn abs(self) -> Self { R(self.0.abs()) }
    fn spec_sqrt(self) -> Self { self.sqrt() }
    fn sqrt(self) -> Self { R(self.0.sqrt()) }
    fn spec_sin(self) -> Self { self.sin() }
    fn sin(self) -> Self { R(self.0.sin()) }
    fn spec_cos(self) -> Self { self.cos() }
    fn cos(self) -> Self { R(self.0.cos()) }
    fn spec_atan2(self, rhs: Self) -> Self { self.atan2(rhs) }
    fn atan2(self, rhs: Self) -> Self { R(self.0.atan2(rhs.0)) }
    fn spec_hypot(self, rhs: Self) -> Self { self.hypot(rhs) }
    fn hypot(self, rhs: Self) -> Self { R(self.0.hypot(rhs.0)) }
    fn spec_powf(self, rhs: Self) -> Self { self.powf(rhs) }
    fn powf(self, rhs: Self) -> Self { R(self.0.powf(rhs.0)) }
    fn spec_floor(self) -> Self { self.floor() }
    fn floor(self) -> Self { R(self.0.floor()) }
    fn spec_ceil(self) -> Self { self.ceil() }
    fn ceil(self) -> Self { R(self.0.ceil()) }
    fn spec_lt(self, rhs: Self) -> bool { self.lt(rhs) }
    fn lt(self, rhs: Self) -> bool { self.0 < rhs.0 }
    fn spec_le(self, rhs: Self) -> bool { self.le(rhs) }
    fn le(self, rhs: Self) -> bool { self.0 <= rhs.0 }
    fn spec_same(self, rhs: Self) -> bool { self.same(rhs) }
    fn same(self, rhs: Self) -> bool { self.0 == rhs.0 }
}

fn c(re: f64, im: f64) -> Complex<R> {
    Complex::new(R(re), R(im))
}

fn reals(v: &[f64]) -> Vec<Complex<R>> {
    v.iter().map(|x| c(*x, 0.0)).collect()
}

fn cache(power: usize, invert: bool) -> WCache<R> {
    let mut wn = WCache::<R>::new(invert);
    wn.ensure_max_power(power);
    wn
}

fn close(a: Complex<R>, re: f64, im: f64, tol: f64) -> bool {
    (a.re.0 - re).abs() <= tol && (a.im.0 - im).abs() <= tol
}

/// A pseudo-random sequence that is the same on every run.
fn noise(n: usize, seed: u64) -> Vec<Complex<R>> {
    let mut state = seed;
    let mut next = move || {
        state = state.wrapping_mul(6364136223846793005).wrapping_add(1442695040888963407);
        ((state >> 11) as f64) / ((1u64 << 53) as f64) * 2.0 - 1.0
    };
    (0..n).map(|_| { let re = next(); let im = next(); c(re, im) }).collect()
}

/// The transform by its defining sum, with cosines and sines taken afresh.
fn by_sum(x: &[Complex<R>], invert: bool) -> Vec<(f64, f64)> {
    let n = x.len();
    let sign = if invert { -1.0 } else { 1.0 };
    (0..n)
        .map(|k| {
            let mut re = 0.0;
            let mut im = 0.0;
            for (t, v) in x.iter().enumerate() {
                let a = sign * std::f64::consts::TAU * ((k * t) % n) as f64 / n as f64;
                re += v.re.0 * a.cos() - v.im.0 * a.sin();
                im += v.re.0 * a.sin() + v.im.0 * a.cos();
            }
            (re, im)
        })
        .collect()
}

/// The transform by halving into even and odd items, as the textbook has it.
fn by_halving(x: &[Complex<R>], invert: bool) -> Vec<Complex<R>> {
    let n = x.len();
    if n < 2 {
        return x.to_vec();
    }
    let e: Vec<Complex<R>> = x.iter().step_by(2).copied().collect();
    let o: Vec<Complex<R>> = x.iter().skip(1).step_by(2).copied().collect();
    let e = by_halving(&e, invert);
    let o = by_halving(&o, invert);
    let w = compute_nth_roots::<R>(n, invert);
    let mut out = vec![c(0.0, 0.0); n];
    for k in 0..n / 2 {
        let wy = w[k].mul(o[k]);
        out[k] = e[k].add(wy);
        out[k + n / 2] = e[k].sub(wy);
    }
    out
}

#[test]
fn impulse_gives_all_ones() {
    let wn = cache(2, true);
    let mut y = reals(&[1.0, 0.0, 0.0, 0.0]);
    assert_eq!(dft(&wn, &mut y), Ok(()));
    for v in &y {
        assert!(close(*v, 1.0, 0.0, 1e-12));
    }
}

#[test]
fn alternating_signs_give_one_peak() {
    let wn = cache(2, true);
    let mut y = reals(&[1.0, -1.0, 1.0, -1.0]);
    assert_eq!(dft(&wn, &mut y), Ok(()));
    let want = [0.0, 0.0, 4.0, 0.0];
    for (v, w) in y.iter().zip(want) {
        assert!(close(*v, w, 0.0, 1e-12));
    }
}

#[test]
fn length_that_is_no_power_of_two_is_refused() {
    let wn = cache(4, true);
    for n in [0usize, 3, 5, 6, 7, 12] {
        let before = noise(n, 7);
        let mut y = before.clone();
        assert_eq!(dft(&wn, &mut y), Err(TransformError::InvalidLength));
        assert_eq!(y.len(), n);
        for (a, b) in y.iter().zip(&before) {
            assert_eq!((a.re, a.im), (b.re, b.im));
        }
    }
}

#[test]
fn length_one_is_left_alone() {
    let wn = cache(1, false);
    let mut y = vec![c(2.5, -1.0)];
    assert_eq!(dft(&wn, &mut y), Ok(()));
    assert_eq!((y[0].re, y[0].im), (R(2.5), R(-1.0)));
}

#[test]
fn forward_then_inverse_returns_the_input() {
    for power in [1usize, 2, 3, 4, 10] {
        let n = 1usize << power;
        let forward = cache(power, true);
        let inverse = cache(power, false);
        let x = noise(n, 40 + power as u64);
        let mut y = x.clone();
        assert_eq!(dft(&forward, &mut y), Ok(()));
        assert_eq!(dft(&inverse, &mut y), Ok(()));
        let tol = 1e-9;
        for (a, b) in y.iter().zip(&x) {
            assert!(close(*a, b.re.0 * n as f64, b.im.0 * n as f64, tol * n as f64));
        }
    }
}

#[test]
fn real_input_gives_mirrored_spectrum() {
    for power in [1usize, 2, 3, 4, 6] {
        let n = 1usize << power;
        let wn = cache(power, true);
        let mut y: Vec<Complex<R>> = noise(n, 3).iter().map(|v| c(v.re.0, 0.0)).collect();
        assert_eq!(dft(&wn, &mut y), Ok(()));
        for k in 1..n / 2 {
            assert!(close(y[n - k], y[k].re.0, -y[k].im.0, 1e-9));
        }
    }
}

#[test]
fn agrees_with_the_defining_sum() {
    for invert in [false, true] {
        for power in [0usize, 1, 2, 3, 5] {
            let n = 1usize << power;
            let wn = cache(power, invert);
            let x = noise(n, 11);
            let want = by_sum(&x, invert);
            let mut y = x.clone();
            assert_eq!(dft(&wn, &mut y), Ok(()));
            for (a, w) in y.iter().zip(&want) {
                assert!(close(*a, w.0, w.1, 1e-9));
            }
        }
    }
}

#[test]
fn agrees_with_the_halving_recursion_to_the_last_bit() {
    for invert in [false, true] {
        for power in [0usize, 1, 2, 3, 4, 7] {
            let n = 1usize << power;
            let wn = cache(power, invert);
            let x = noise(n, 5);
            let want = by_halving(&x, invert);
            let mut y = x.clone();
            fft_iterative_v2(&wn, &mut y, power);
            for (a, w) in y.iter().zip(&want) {
                assert_eq!((a.re, a.im), (w.re, w.im));
            }
        }
    }
}

#[test]
fn a_cache_deeper_than_needed_serves_as_well() {
    let shallow = cache(3, true);
    let deep = cache(9, true);
    let x = noise(8, 1);
    let mut a = x.clone();
    let mut b = x.clone();
    assert_eq!(dft(&shallow, &mut a), Ok(()));
    assert_eq!(dft(&deep, &mut b), Ok(()));
    for (p, q) in a.iter().zip(&b) {
        assert_eq!((p.re, p.im), (q.re, q.im));
    }
}

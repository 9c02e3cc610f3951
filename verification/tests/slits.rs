use slitwave::{Complex, EMEnv, LambdaZip, Scalar, Slit, Vector2, Vector3, Wave};

#[derive(Clone, Copy, Debug, PartialEq)]
struct R(f64);

impl Scalar for R {
    fn spec_zero() -> Self { Self::zero() }
    fn zero() -> Self { R(0.0) }
    fn spec_one() -> Self { Self::one() }
    fn one() -> Self { R(1.0) }
    fn spec_pi() -> Self { Self::pi() }
    fn pi() -> Self { R(std::f64::consts::PI) }
    fn spec_tau() -> Self { Self::tau() }
    fn tau() -> Self { R(std::f64::consts::TAU) }
    fn spec_max_value() -> Self { Self::max_value() }
    fn max_value() -> Self { R(f64::MAX) }
    fn spec_from_usize(n: usize) -> Self { Self::from_usize(n) }
    fn from_usize(n: usize) -> Self { R(n as f64) }
    fn spec_to_usize(self) -> usize { self.to_usize() }
    fn to_usize(self) -> usize { self.0 as usize }
    fn spec_add(self, rhs: Self) -> Self { self.add(rhs) }
    fn add(self, rhs: Self) -> Self { R(self.0 + rhs.0) }
    fn spec_sub(self, rhs: Self) -> Self { self.sub(rhs) }
    fn sub(self, rhs: Self) -> Self { R(self.0 - rhs.0) }
    fn spec_mul(self, rhs: Self) -> Self { self.mul(rhs) }
    fn mul(self, rhs: Self) -> Self { R(self.0 * rhs.0) }
    fn spec_div(self, rhs: Self) -> Self { self.div(rhs) }
    fn div(self, rhs: Self) -> Self { R(self.0 / rhs.0) }
    fn spec_rem(self, rhs: Self) -> Self { self.rem(rhs) }
    fn rem(self, rhs: Self) -> Self { R(self.0 % rhs.0) }
    fn spec_neg(self) -> Self { self.neg() }
    fn neg(self) -> Self { R(-self.0) }
    fn spec_abs(self) -> Self { self.abs() }
    fn abs(self) -> Self { R(self.0.abs()) }
    fn spec_sqrt(self) -> Self { self.sqrt() }
    fn sqrt(self) -> Self { R(self.0.sqrt()) }
    fn spec_sin(self) -> Self { self.sin() }
    fn sin(self) -> Self { R(self.0.sin()) }
    fn spec_cos(self) -> Self { self.cos() }
    fn cos(self) -> Self { R(self.0.cos()) }
    fn spec_atan2(self, rhs: Self) -> Self { self.atan2(rhs) }
    fn atan2(self, rhs: Self) -> Self { R(self.0.atan2(rhs.0)) }
    fn spec_hypot(self, rhs: Self) -> Self { self.hypot(rhs) }
    fn hypot(self, rhs: Self) -> Self { R(self.0.hypot(rhs.0)) }
    fn spec_powf(self, rhs: Self) -> Self { self.powf(rhs) }
    fn powf(self, rhs: Self) -> Self { R(self.0.powf(rhs.0)) }
    fn spec_floor(self) -> Self { self.floor() }
    fn floor(self) -> Self { R(self.0.floor()) }
    fn spec_ceil(self) -> Self { self.ceil() }
    fn ceil(self) -> Self { R(self.0.ceil()) }
    fn spec_lt(self, rhs: Self) -> bool { self.lt(rhs) }
    fn lt(self, rhs: Self) -> bool { self.0 < rhs.0 }
    fn spec_le(self, rhs: Self) -> bool { self.le(rhs) }
    fn le(self, rhs: Self) -> bool { self.0 <= rhs.0 }
    fn spec_same(self, rhs: Self) -> bool { self.same(rhs) }
    fn same(self, rhs: Self) -> bool { self.0 == rhs.0 }
}

use std::f64::consts::{PI, TAU};

fn v(x: f64, y: f64) -> Vector2<R> {
    Vector2::new(R(x), R(y))
}

fn wave(lambda: f64, amplitude: f64) -> Wave<R> {
    Wave::new(R(lambda), R(amplitude))
}

fn bins(keys: &[f64]) -> Vec<(R, Complex<R>)> {
    keys.iter().map(|k| (R(*k), Complex::zero())).collect()
}

fn fields(b: &[(R, Complex<R>)]) -> Vec<(f64, f64)> {
    b.iter().map(|p| (p.1.re.0, p.1.im.0)).collect()
}

#[test]
fn constructor_takes_the_wavelength_first() {
    let w = wave(500.0, 2.0);
    assert_eq!(w.lambda.0, 500.0);
    assert_eq!(w.amplitude.0, 2.0);
}

#[test]
fn straight_ahead_the_wave_keeps_its_amplitude() {
    for (lambda, amplitude, path) in [(500.0, 2.0, 1234.5), (3.0, 0.25, 10.0), (700.0, 1.0, 0.0)] {
        let c = wave(lambda, amplitude).diffract((R(0.0), R(path)));
        let phase = TAU * (path % lambda) * (1.0 / lambda);
        assert_eq!((c.re.0, c.im.0), (amplitude * phase.cos(), amplitude * phase.sin()));
        assert!((c.norm().0 - amplitude).abs() <= 1e-15 * amplitude);
    }
}

#[test]
fn straight_ahead_after_whole_wavelengths_the_field_is_the_amplitude() {
    let c = wave(4.0, 3.0).diffract((R(0.0), R(8.0)));
    assert_eq!((c.re.0, c.im.0), (3.0, 0.0));
    let z = wave(4.0, 3.0).diffract((R(-0.0), R(8.0)));
    assert_eq!((z.re.0, z.im.0), (3.0, 0.0));
}

#[test]
fn off_axis_the_wave_is_dimmed_by_the_sinc() {
    let (lambda, amplitude, beta, path) = (500.0, 2.0, 700.0, 1600.0);
    let c = wave(lambda, amplitude).diffract((R(beta), R(path)));
    let rec = 1.0 / lambda;
    let phase = TAU * (path % lambda) * rec;
    let b = beta * rec;
    let mag = (b.sin() / b).abs() * amplitude;
    assert_eq!((c.re.0, c.im.0), (mag * phase.cos(), mag * phase.sin()));
}

#[test]
fn first_minimum_of_a_slit() {
    // beta over the wavelength is pi: the sine vanishes
    let c = wave(2.0, 1.0).diffract((R(2.0 * PI), R(0.0)));
    assert!(c.norm().0 < 1e-15);
}

#[test]
fn direction_is_kept_at_unit_length() {
    let waves = [wave(1.0, 1.0)];
    let mut s = Slit::new(R(1.0), v(0.0, 0.0), v(3.0, 4.0), &waves);
    assert_eq!((s.get_direction().x.0, s.get_direction().y.0), (0.6, 0.8));
    s.set_direction(v(0.0, -5.0));
    assert_eq!((s.get_direction().x.0, s.get_direction().y.0), (0.0, -1.0));
    assert_eq!(s.width.0, 1.0);
}

#[test]
fn a_point_behind_the_wall_is_not_seen() {
    let waves = [wave(1.0, 1.0)];
    let s = Slit::new(R(2.0), v(1.0, 1.0), v(0.0, 1.0), &waves);
    assert!(s.diff_args(v(1.0, 0.0)).is_none());
    assert!(s.diff_args(v(-50.0, 0.999)).is_none());
    assert!(s.diff_args(v(1.0, 2.0)).is_some());
    // a point in the plane of the wall is still seen
    assert!(s.diff_args(v(5.0, 1.0)).is_some());
}

#[test]
fn what_is_known_of_a_point_in_front() {
    let waves = [wave(1.0, 1.0)];
    let s = Slit::new(R(2.0), v(0.0, 0.0), v(0.0, 1.0), &waves);
    let (beta, len) = s.diff_args(v(3.0, 4.0)).unwrap();
    assert_eq!(len.0, 5.0);
    // the sine of the angle against the normal is 3/5
    assert_eq!(beta.0, PI * 2.0 * (3.0 / 5.0));
    let (beta, len) = s.diff_args(v(0.0, 7.0)).unwrap();
    assert_eq!((beta.0, len.0), (0.0, 7.0));
}

#[test]
fn nothing_is_added_for_a_point_behind_the_wall() {
    let waves = [wave(1.0, 1.0), wave(2.0, 3.0)];
    let s = Slit::new(R(2.0), v(0.0, 0.0), v(0.0, 1.0), &waves);
    let mut acc = bins(&[1.0, 2.0]);
    acc[0].1 = Complex::new(R(0.5), R(-0.5));
    s.calculate_intensity(v(3.0, -4.0), &mut acc);
    assert_eq!(fields(&acc), vec![(0.5, -0.5), (0.0, 0.0)]);
}

#[test]
fn each_wave_adds_to_the_bin_of_its_wavelength() {
    let waves = [wave(2.0, 1.0), wave(5.0, 3.0)];
    let s = Slit::new(R(2.0), v(0.0, 0.0), v(0.0, 1.0), &waves);
    let mut acc = bins(&[1.0, 2.0, 3.0, 5.0]);
    acc[1].1 = Complex::new(R(10.0), R(20.0));
    let x = v(0.0, 10.0);
    s.calculate_intensity(x, &mut acc);
    let args = s.diff_args(x).unwrap();
    let a = waves[0].diffract(args);
    let b = waves[1].diffract(args);
    assert_eq!(fields(&acc), vec![(0.0, 0.0), (10.0 + a.re.0, 20.0 + a.im.0), (0.0, 0.0), (b.re.0, b.im.0)]);
    // on the axis, ten away: five wavelengths of 2, two of 5
    assert_eq!(fields(&acc)[3], (3.0, 0.0));
    // the wavelengths of the bins stay
    assert_eq!(acc.iter().map(|p| p.0 .0).collect::<Vec<f64>>(), vec![1.0, 2.0, 3.0, 5.0]);
}

#[test]
fn a_wave_without_a_bin_ends_the_pairing() {
    let waves = [wave(2.0, 1.0), wave(4.0, 1.0), wave(5.0, 1.0)];
    let s = Slit::new(R(2.0), v(0.0, 0.0), v(0.0, 1.0), &waves);
    let mut acc = bins(&[2.0, 5.0]);
    s.calculate_intensity(v(0.0, 20.0), &mut acc);
    assert_eq!(fields(&acc), vec![(1.0, 0.0), (0.0, 0.0)]);
}

#[test]
fn bins_are_searched_onwards_only() {
    let waves = [wave(5.0, 1.0), wave(2.0, 1.0)];
    let s = Slit::new(R(2.0), v(0.0, 0.0), v(0.0, 1.0), &waves);
    let mut acc = bins(&[2.0, 5.0]);
    s.calculate_intensity(v(0.0, 20.0), &mut acc);
    // the bin of wavelength 2 was passed over on the way to 5
    assert_eq!(fields(&acc), vec![(0.0, 0.0), (1.0, 0.0)]);
}

#[test]
fn pairs_come_in_order() {
    let keys = bins(&[1.0, 2.0, 2.0, 3.0, 4.0]);
    let waves = [wave(2.0, 1.0), wave(2.0, 1.0), wave(4.0, 1.0), wave(9.0, 1.0)];
    let mut zip = LambdaZip::new();
    assert_eq!(zip.next(&keys, &waves), Some((1, 0)));
    assert_eq!(zip.next(&keys, &waves), Some((2, 1)));
    assert_eq!(zip.next(&keys, &waves), Some((4, 2)));
    assert_eq!(zip.next(&keys, &waves), None);
    assert_eq!(zip.next(&keys, &waves), None);
}

#[test]
fn no_pairs_without_waves_or_bins() {
    let keys = bins(&[1.0]);
    let none: [Wave<R>; 0] = [];
    assert_eq!(LambdaZip::new().next(&keys, &none), None);
    let empty = bins(&[]);
    assert_eq!(LambdaZip::new().next(&empty, &[wave(1.0, 1.0)]), None);
}

fn screen_of(n: usize) -> Vec<Vector3<R>> {
    vec![Vector3::new(R(-1.0), R(-1.0), R(-1.0)); n]
}

#[test]
fn one_slit_one_wave_by_hand() {
    let waves = [wave(2.0, 1.5)];
    let slits = [Slit::new(R(1.0), v(0.0, 0.0), v(0.0, 1.0), &waves)];
    let map = [(R(2.0), Vector3::new(R(1.0), R(0.5), R(0.25)))];
    let env = EMEnv::new(v(-4.0, 10.0), v(4.0, 10.0));
    let mut out = screen_of(5);
    env.generate_pattern(&slits, &map, &mut out, |c| c);

    let step = 1.0 / 4.0;
    let mut x = 0.0;
    for sample in &out {
        let p = v(-4.0 + 8.0 * x, 10.0);
        x += step;
        let c = waves[0].diffract(slits[0].diff_args(p).unwrap());
        let i = c.re.0 * c.re.0 + c.im.0 * c.im.0;
        assert_eq!((sample.x.0, sample.y.0, sample.z.0), (0.0 + 1.0 * i, 0.0 + 0.5 * i, 0.0 + 0.25 * i));
    }
    // opposite the slit the wave arrives whole: 1.5 squared
    assert_eq!(out[2].x.0, 2.25);
}

#[test]
fn the_pattern_of_one_slit_peaks_opposite_it_and_is_even() {
    let waves = [wave(500.0, 1.0)];
    let slits = [Slit::new(R(3000.0), v(0.0, 0.0), v(0.0, 1.0), &waves)];
    let map = [(R(500.0), Vector3::new(R(1.0), R(1.0), R(1.0)))];
    let env = EMEnv::new(v(-1.0e6, 5.0e6), v(1.0e6, 5.0e6));
    let n = 201;
    let mut out = screen_of(n);
    env.generate_pattern(&slits, &map, &mut out, |c| c);

    let mid = n / 2;
    let peak = out[mid].x.0;
    assert!((peak - 1.0).abs() < 1e-12);
    for (k, s) in out.iter().enumerate() {
        assert!(s.x.0 <= peak + 1e-12, "{}", k);
        assert!(s.x.0 >= 0.0);
        assert_eq!((s.y.0, s.z.0), (s.x.0, s.x.0));
    }
    for k in 0..mid {
        assert!((out[k].x.0 - out[n - 1 - k].x.0).abs() < 1e-6, "{}", k);
    }
    // it does fall off to the sides
    assert!(out[0].x.0 < 0.5 * peak);
}

#[test]
fn two_slits_interfere() {
    let waves = [wave(2.0, 1.0)];
    // half a wavelength more to the one slit than to the other
    let slits = [
        Slit::new(R(0.0), v(0.0, 0.0), v(0.0, 1.0), &waves),
        Slit::new(R(0.0), v(0.0, -1.0), v(0.0, 1.0), &waves),
    ];
    let map = [(R(2.0), Vector3::new(R(1.0), R(1.0), R(1.0)))];
    let env = EMEnv::new(v(0.0, 10.0), v(0.0, 10.0));
    let mut out = screen_of(1);
    env.generate_pattern(&slits, &map, &mut out, |c| c);
    assert!(out[0].x.0 < 1e-24);

    // a whole wavelength more: they add up, and the sum is squared
    let slits = [
        Slit::new(R(0.0), v(0.0, 0.0), v(0.0, 1.0), &waves),
        Slit::new(R(0.0), v(0.0, -2.0), v(0.0, 1.0), &waves),
    ];
    let mut out = screen_of(1);
    env.generate_pattern(&slits, &map, &mut out, |c| c);
    assert!((out[0].x.0 - 4.0).abs() < 1e-12);
}

#[test]
fn colours_are_summed_over_the_wavelengths() {
    let waves = [wave(2.0, 1.0), wave(5.0, 2.0)];
    let slits = [Slit::new(R(1.0), v(0.0, 0.0), v(0.0, 1.0), &waves)];
    let map = [
        (R(2.0), Vector3::new(R(1.0), R(0.0), R(0.0))),
        (R(3.0), Vector3::new(R(9.0), R(9.0), R(9.0))),
        (R(5.0), Vector3::new(R(0.0), R(0.5), R(0.0))),
    ];
    let env = EMEnv::new(v(0.0, 10.0), v(0.0, 10.0));
    let mut out = screen_of(2);
    env.generate_pattern(&slits, &map, &mut out, |c| c);
    assert_eq!((out[0].x.0, out[0].y.0, out[0].z.0), (1.0, 2.0, 0.0));
}

#[test]
fn a_screen_behind_the_wall_stays_dark() {
    let waves = [wave(2.0, 1.0)];
    let slits = [Slit::new(R(1.0), v(0.0, 0.0), v(0.0, 1.0), &waves)];
    let map = [(R(2.0), Vector3::new(R(1.0), R(1.0), R(1.0)))];
    let env = EMEnv::new(v(-4.0, -10.0), v(4.0, -10.0));
    let mut out = screen_of(9);
    env.generate_pattern(&slits, &map, &mut out, |c| c);
    for s in &out {
        assert_eq!((s.x.0, s.y.0, s.z.0), (0.0, 0.0, 0.0));
    }
}

#[test]
fn no_samples_no_work() {
    let waves = [wave(2.0, 1.0)];
    let slits = [Slit::new(R(1.0), v(0.0, 0.0), v(0.0, 1.0), &waves)];
    let map = [(R(2.0), Vector3::new(R(1.0), R(1.0), R(1.0)))];
    let env = EMEnv::<R>::default();
    let mut out = screen_of(0);
    env.generate_pattern(&slits, &map, &mut out, |c| c);
    assert!(out.is_empty());
    assert_eq!((env.screen.0.x.0, env.screen.1.y.0), (0.0, 0.0));
}

#[test]
fn without_slits_the_screen_is_dark() {
    let none: [Slit<R>; 0] = [];
    let map = [(R(2.0), Vector3::new(R(1.0), R(1.0), R(1.0)))];
    let env = EMEnv::new(v(-4.0, 10.0), v(4.0, 10.0));
    let mut out = screen_of(3);
    env.generate_pattern(&none, &map, &mut out, |c| c);
    for s in &out {
        assert_eq!((s.x.0, s.y.0, s.z.0), (0.0, 0.0, 0.0));
    }
}

#[test]
fn a_copy_of_the_places_goes_on_from_them() {
    let keys = bins(&[1.0, 2.0, 3.0]);
    let waves = [wave(2.0, 1.0), wave(3.0, 1.0)];
    let mut zip = LambdaZip::new();
    assert_eq!(zip.next(&keys, &waves), Some((1, 0)));
    let mut copy = zip.clone();
    assert_eq!(copy.next(&keys, &waves), Some((2, 1)));
    assert_eq!(zip.next(&keys, &waves), Some((2, 1)));
}

use slitwave::{Complex, Scalar, Vector2, Vector3};

#[derive(Clone, Copy, Debug, PartialEq)]
struct R(f64);

impl Scalar for R {
    fn spec_zero() -> Self { Self::zero() }
    fn zero() -> Self { R(0.0) }
    fn spec_one() -> Self { Self::one() }
    fn one() -> Self { R(1.0) }
    fn spec_pi() -> Self { Self::pi() }
    fn pi() -> Self { R(std::f64::consts::PI) }
    fn spec_tau() -> Self { Self::tau() }
    fn tau() -> Self { R(std::f64::consts::TAU) }
    fn spec_max_value() -> Self { Self::max_value() }
    fn max_value() -> Self { R(f64::MAX) }
    fn spec_from_usize(n: usize) -> Self { Self::from_usize(n) }
    fn from_usize(n: usize) -> Self { R(n as f64) }
    fn spec_to_usize(self) -> usize { self.to_usize() }
    fn to_usize(self) -> usize { self.0 as usize }
    fn spec_add(self, rhs: Self) -> Self { self.add(rhs) }
    fn add(self, rhs: Self) -> Self { R(self.0 + rhs.0) }
    fn spec_sub(self, rhs: Self) -> Self { self.sub(rhs) }
    fn sub(self, rhs: Self) -> Self { R(self.0 - rhs.0) }
    fn spec_mul(self, rhs: Self) -> Self { self.mul(rhs) }
    fn mul(self, rhs: Self) -> Self { R(self.0 * rhs.0) }
    fn spec_div(self, rhs: Self) -> Self { self.div(rhs) }
    fn div(self, rhs: Self) -> Self { R(self.0 / rhs.0) }
    fn spec_rem(self, rhs: Self) -> Self { self.rem(rhs) }
    fn rem(self, rhs: Self) -> Self { R(self.0 % rhs.0) }
    fn spec_neg(self) -> Self { self.neg() }
    fn neg(self) -> Self { R(-self.0) }
    fn spec_abs(self) -> Self { self.abs() }
    fn abs(self) -> Self { R(self.0.abs()) }
    fn spec_sqrt(self) -> Self { self.sqrt() }
    fn sqrt(self) -> Self { R(self.0.sqrt()) }
    fn spec_sin(self) -> Self { self.sin() }
    fn sin(self) -> Self { R(self.0.sin()) }
    fn spec_cos(self) -> Self { self.cos() }
    fn cos(self) -> Self { R(self.0.cos()) }
    fn spec_atan2(self, rhs: Self) -> Self { self.atan2(rhs) }
    fn atan2(self, rhs: Self) -> Self { R(self.0.atan2(rhs.0)) }
    fn spec_hypot(self, rhs: Self) -> Self { self.hypot(rhs) }
    fn hypot(self, rhs: Self) -> Self { R(self.0.hypot(rhs.0)) }
    fn spec_powf(self, rhs: Self) -> Self { self.powf(rhs) }
    fn powf(self, rhs: Self) -> Self { R(self.0.powf(rhs.0)) }
    fn spec_floor(self) -> Self { self.floor() }
    fn floor(self) -> Self { R(self.0.floor()) }
    fn spec_ceil(self) -> Self { self.ceil() }
    fn ceil(self) -> Self { R(self.0.ceil()) }
    fn spec_lt(self, rhs: Self) -> bool { self.lt(rhs) }
    fn lt(self, rhs: Self) -> bool { self.0 < rhs.0 }
    fn spec_le(self, rhs: Self) -> bool { self.le(rhs) }
    fn le(self, rhs: Self) -> bool { self.0 <= rhs.0 }
    fn spec_same(self, rhs: Self) -> bool { self.same(rhs) }
    fn same(self, rhs: Self) -> bool { self.0 == rhs.0 }
}

fn noise(n: usize, seed: u64) -> Vec<f64> {
    let mut state = seed;
    (0..n)
        .map(|_| {
            state = state.wrapping_mul(6364136223846793005).wrapping_add(1442695040888963407);
            ((state >> 11) as f64) / ((1u64 << 53) as f64) * 20.0 - 10.0
        })
        .collect()
}

fn pair(c: Complex<R>) -> (f64, f64) {
    (c.re.0, c.im.0)
}

fn theirs(c: num::Complex<f64>) -> (f64, f64) {
    (c.re, c.im)
}

#[test]
fn complex_arithmetic_is_that_of_num_to_the_last_bit() {
    let v = noise(400, 9);
    for q in v.chunks(4) {
        let (a, b) = (Complex::new(R(q[0]), R(q[1])), Complex::new(R(q[2]), R(q[3])));
        let (x, y) = (num::Complex::new(q[0], q[1]), num::Complex::new(q[2], q[3]));
        assert_eq!(pair(a.add(b)), theirs(x + y));
        assert_eq!(pair(a.sub(b)), theirs(x - y));
        assert_eq!(pair(a.mul(b)), theirs(x * y));
        assert_eq!(pair(a.scale(R(q[2]))), theirs(x * q[2]));
        assert_eq!(pair(a.conj()), theirs(x.conj()));
        assert_eq!(a.norm().0, x.norm());
        assert_eq!(a.norm_sqr().0, x.norm_sqr());
        assert_eq!(a.arg().0, x.arg());
        assert_eq!(pair(Complex::cis(R(q[0]))), theirs(num::Complex::cis(q[0])));
        assert_eq!(
            pair(Complex::from_polar(R(q[0]), R(q[1]))),
            theirs(num::Complex::from_polar(q[0], q[1]))
        );
    }
}

#[test]
fn complex_constants() {
    assert_eq!(pair(Complex::<R>::zero()), (0.0, 0.0));
    assert_eq!(pair(Complex::<R>::one()), (1.0, 0.0));
    assert_eq!(pair(Complex::from_real(R(2.5))), (2.5, 0.0));
    assert_eq!(pair(Complex::new(R(1.0), R(-2.0))), (1.0, -2.0));
}

#[test]
fn product_of_two_complex_numbers() {
    let p = Complex::new(R(1.0), R(2.0)).mul(Complex::new(R(3.0), R(-1.0)));
    assert_eq!(pair(p), (5.0, 5.0));
}

#[test]
fn plane_vectors() {
    let a = Vector2::new(R(3.0), R(4.0));
    let b = Vector2::new(R(-1.0), R(2.0));
    assert_eq!(a.add(b).x.0, 2.0);
    assert_eq!(a.add(b).y.0, 6.0);
    assert_eq!(a.sub(b).x.0, 4.0);
    assert_eq!(a.sub(b).y.0, 2.0);
    assert_eq!(a.scale(R(2.0)).x.0, 6.0);
    assert_eq!(a.scale(R(2.0)).y.0, 8.0);
    assert_eq!(a.unscale(R(2.0)).x.0, 1.5);
    assert_eq!(a.dot(b).0, 5.0);
    assert_eq!(a.perp_dot(b).0, 10.0);
    assert_eq!(a.squared_length().0, 25.0);
    assert_eq!(a.length().0, 5.0);
    assert_eq!(a.normalised().x.0, 0.6);
    assert_eq!(a.normalised().y.0, 0.8);
    assert_eq!(a.rotated_90().x.0, -4.0);
    assert_eq!(a.rotated_90().y.0, 3.0);
    assert_eq!(a.squared_distance(b).0, 20.0);
    assert_eq!(Vector2::<R>::zero().x.0, 0.0);
}

#[test]
fn a_quarter_turn_to_the_left_of_east_is_north() {
    let n = Vector2::new(R(1.0), R(0.0)).rotated_90();
    assert_eq!((n.x.0, n.y.0), (0.0, 1.0));
}

#[test]
fn colour_triples() {
    let a = Vector3::new(R(1.0), R(2.0), R(3.0));
    let b = Vector3::new(R(0.5), R(0.25), R(-1.0));
    let s = a.add(b);
    assert_eq!((s.x.0, s.y.0, s.z.0), (1.5, 2.25, 2.0));
    let t = a.scale(R(2.0));
    assert_eq!((t.x.0, t.y.0, t.z.0), (2.0, 4.0, 6.0));
    let z = Vector3::<R>::zero();
    assert_eq!((z.x.0, z.y.0, z.z.0), (0.0, 0.0, 0.0));
}

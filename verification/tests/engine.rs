use fractal_renderer::app::AppData;
use fractal_renderer::color::{linear_to_srgb, srgb_to_linear};
use fractal_renderer::compute::{
    color_to_byte, pack_color, run, run_uv, Params, ThreadedCompute,
};
use fractal_renderer::fractal::burning_ship::burning_ship;
use fractal_renderer::fractal::cos_leaf::cos_leaf;
use fractal_renderer::fractal::escape_time_method::{
    compute_escape_time, compute_escape_time_fractal, compute_normal_map, compute_orbit_trap,
    default_bailout_radius, CrossTrap, EscapeResult, Partial, PointTrap, C, Z,
};
use fractal_renderer::fractal::lyapunov::lyapunov;
use fractal_renderer::fractal::mandelbrot::{build_step, mandelbrot_value};
use fractal_renderer::fractal::multibrot::multibrot3;
use fractal_renderer::fractal::newton::{build_cubic, newton, newton3};
use fractal_renderer::fractal::tricorn::tricorn;
use fractal_renderer::fractal::{
    compute_fractal_color, sample_palette, ColorPalette, FractalKind, FractalParams,
    FractalVariation, RenderTechnique,
};
use fractal_renderer::math::function::{Func, Function, Identity};
use fractal_renderer::math::{
    to_i32, to_u32, Complex, Exp, I64Vec2, Number, Real, Scalar, Trigo, UVec2, Vec2, Vec3,
};
use fractal_renderer::quad_cell::QuadPos;
use fractal_renderer::render::{Instance, Uniforms};
use std::cell::Cell;

#[derive(Clone, Copy, Debug, PartialEq)]
struct F32(f32);
impl Number for F32 {
    fn zero() -> Self {
        F32(0.0)
    }
    fn zero_spec() -> Self {
        Self::zero()
    }
    fn one() -> Self {
        F32(1.0)
    }
    fn one_spec() -> Self {
        Self::one()
    }
    fn from_decimal(mantissa: i32, exponent: i32) -> Self {
        F32(format!("{}e{}", mantissa, exponent).parse::<f32>().unwrap() as f32)
    }
    fn from_decimal_spec(mantissa: i32, exponent: i32) -> Self {
        Self::from_decimal(mantissa, exponent)
    }
    fn add(self, rhs: Self) -> Self {
        F32(self.0 + rhs.0)
    }
    fn add_spec(self, rhs: Self) -> Self {
        self.add(rhs)
    }
    fn sub(self, rhs: Self) -> Self {
        F32(self.0 - rhs.0)
    }
    fn sub_spec(self, rhs: Self) -> Self {
        self.sub(rhs)
    }
    fn mul(self, rhs: Self) -> Self {
        F32(self.0 * rhs.0)
    }
    fn mul_spec(self, rhs: Self) -> Self {
        self.mul(rhs)
    }
    fn div(self, rhs: Self) -> Self {
        F32(self.0 / rhs.0)
    }
    fn div_spec(self, rhs: Self) -> Self {
        self.div(rhs)
    }
    fn neg(self) -> Self {
        F32(-self.0)
    }
    fn neg_spec(self) -> Self {
        self.neg()
    }
    fn inv(self) -> Self {
        F32(1.0 / self.0)
    }
    fn inv_spec(self) -> Self {
        self.inv()
    }
}

impl Exp for F32 {
    fn squared(self) -> Self {
        F32(self.0 * self.0)
    }
    fn squared_spec(self) -> Self {
        self.squared()
    }
    fn sqrt(self) -> Self {
        F32(self.0.sqrt())
    }
    fn sqrt_spec(self) -> Self {
        self.sqrt()
    }
    fn exp(self) -> Self {
        F32(self.0.exp())
    }
    fn exp_spec(self) -> Self {
        self.exp()
    }
    fn pow(self, exp: Self) -> Self {
        F32(self.0.powf(exp.0))
    }
    fn pow_spec(self, exp: Self) -> Self {
        self.pow(exp)
    }
    fn ln(self) -> Self {
        F32(self.0.ln())
    }
    fn ln_spec(self) -> Self {
        self.ln()
    }
    fn log(self, base: Self) -> Self {
        F32(self.0.log(base.0))
    }
    fn log_spec(self, base: Self) -> Self {
        self.log(base)
    }
}

impl Trigo for F32 {
    fn sin(self) -> Self {
        F32(self.0.sin())
    }
    fn sin_spec(self) -> Self {
        self.sin()
    }
    fn cos(self) -> Self {
        F32(self.0.cos())
    }
    fn cos_spec(self) -> Self {
        self.cos()
    }
}

impl Real for F32 {
    fn lt(self, rhs: Self) -> bool {
        self.0 < rhs.0
    }
    fn lt_spec(self, rhs: Self) -> bool {
        self.lt(rhs)
    }
    fn le(self, rhs: Self) -> bool {
        self.0 <= rhs.0
    }
    fn le_spec(self, rhs: Self) -> bool {
        self.le(rhs)
    }
    fn is_zero(self) -> bool {
        self.0 == 0.0
    }
    fn is_zero_spec(self) -> bool {
        self.is_zero()
    }
    fn abs(self) -> Self {
        F32(self.0.abs())
    }
    fn abs_spec(self) -> Self {
        self.abs()
    }
    fn floor(self) -> Self {
        F32(self.0.floor())
    }
    fn floor_spec(self) -> Self {
        self.floor()
    }
    fn ceil(self) -> Self {
        F32(self.0.ceil())
    }
    fn ceil_spec(self) -> Self {
        self.ceil()
    }
    fn log2(self) -> Self {
        F32(self.0.log2())
    }
    fn log2_spec(self) -> Self {
        self.log2()
    }
    fn sinh(self) -> Self {
        F32(self.0.sinh())
    }
    fn sinh_spec(self) -> Self {
        self.sinh()
    }
    fn cosh(self) -> Self {
        F32(self.0.cosh())
    }
    fn cosh_spec(self) -> Self {
        self.cosh()
    }
    fn tan(self) -> Self {
        F32(self.0.tan())
    }
    fn tan_spec(self) -> Self {
        self.tan()
    }
    fn min(self, rhs: Self) -> Self {
        F32(self.0.min(rhs.0))
    }
    fn min_spec(self, rhs: Self) -> Self {
        self.min(rhs)
    }
    fn max(self, rhs: Self) -> Self {
        F32(self.0.max(rhs.0))
    }
    fn max_spec(self, rhs: Self) -> Self {
        self.max(rhs)
    }
    fn rem(self, rhs: Self) -> Self {
        F32(self.0 % rhs.0)
    }
    fn rem_spec(self, rhs: Self) -> Self {
        self.rem(rhs)
    }
    fn rem_euclid(self, rhs: Self) -> Self {
        F32(self.0.rem_euclid(rhs.0))
    }
    fn rem_euclid_spec(self, rhs: Self) -> Self {
        self.rem_euclid(rhs)
    }
    fn powi(self, n: i32) -> Self {
        F32(self.0.powi(n))
    }
    fn powi_spec(self, n: i32) -> Self {
        self.powi(n)
    }
    fn atan2(self, x: Self) -> Self {
        F32(self.0.atan2(x.0))
    }
    fn atan2_spec(self, x: Self) -> Self {
        self.atan2(x)
    }
    fn max_value() -> Self {
        F32(f32::MAX)
    }
    fn max_value_spec() -> Self {
        Self::max_value()
    }
    fn tau() -> Self {
        F32(std::f32::consts::TAU)
    }
    fn tau_spec() -> Self {
        Self::tau()
    }
    fn from_int(n: i64) -> Self {
        F32(n as f32)
    }
    fn from_int_spec(n: i64) -> Self {
        Self::from_int(n)
    }
    fn to_int(self) -> i64 {
        self.0 as i64
    }
    fn to_int_spec(self) -> i64 {
        self.to_int()
    }
}

impl Scalar for F32 {
    type Single = F32;

    fn to_single(self) -> F32 {
        self
    }
    fn to_single_spec(self) -> F32 {
        self.to_single()
    }
    fn from_single(v: F32) -> Self {
        v
    }
    fn from_single_spec(v: F32) -> Self {
        Self::from_single(v)
    }
    fn widen_is_exact(_v: F32) {}
}

#[derive(Clone, Copy, Debug, PartialEq)]
struct F64(f64);
impl Number for F64 {
    fn zero() -> Self {
        F64(0.0)
    }
    fn zero_spec() -> Self {
        Self::zero()
    }
    fn one() -> Self {
        F64(1.0)
    }
    fn one_spec() -> Self {
        Self::one()
    }
    fn from_decimal(mantissa: i32, exponent: i32) -> Self {
        F64(format!("{}e{}", mantissa, exponent).parse::<f32>().unwrap() as f64)
    }
    fn from_decimal_spec(mantissa: i32, exponent: i32) -> Self {
        Self::from_decimal(mantissa, exponent)
    }
    fn add(self, rhs: Self) -> Self {
        F64(self.0 + rhs.0)
    }
    fn add_spec(self, rhs: Self) -> Self {
        self.add(rhs)
    }
    fn sub(self, rhs: Self) -> Self {
        F64(self.0 - rhs.0)
    }
    fn sub_spec(self, rhs: Self) -> Self {
        self.sub(rhs)
    }
    fn mul(self, rhs: Self) -> Self {
        F64(self.0 * rhs.0)
    }
    fn mul_spec(self, rhs: Self) -> Self {
        self.mul(rhs)
    }
    fn div(self, rhs: Self) -> Self {
        F64(self.0 / rhs.0)
    }
    fn div_spec(self, rhs: Self) -> Self {
        self.div(rhs)
    }
    fn neg(self) -> Self {
        F64(-self.0)
    }
    fn neg_spec(self) -> Self {
        self.neg()
    }
    fn inv(self) -> Self {
        F64(1.0 / self.0)
    }
    fn inv_spec(self) -> Self {
        self.inv()
    }
}

impl Exp for F64 {
    fn squared(self) -> Self {
        F64(self.0 * self.0)
    }
    fn squared_spec(self) -> Self {
        self.squared()
    }
    fn sqrt(self) -> Self {
        F64(self.0.sqrt())
    }
    fn sqrt_spec(self) -> Self {
        self.sqrt()
    }
    fn exp(self) -> Self {
        F64(self.0.exp())
    }
    fn exp_spec(self) -> Self {
        self.exp()
    }
    fn pow(self, exp: Self) -> Self {
        F64(self.0.powf(exp.0))
    }
    fn pow_spec(self, exp: Self) -> Self {
        self.pow(exp)
    }
    fn ln(self) -> Self {
        F64(self.0.ln())
    }
    fn ln_spec(self) -> Self {
        self.ln()
    }
    fn log(self, base: Self) -> Self {
        F64(self.0.log(base.0))
    }
    fn log_spec(self, base: Self) -> Self {
        self.log(base)
    }
}

impl Trigo for F64 {
    fn sin(self) -> Self {
        F64(self.0.sin())
    }
    fn sin_spec(self) -> Self {
        self.sin()
    }
    fn cos(self) -> Self {
        F64(self.0.cos())
    }
    fn cos_spec(self) -> Self {
        self.cos()
    }
}

impl Real for F64 {
    fn lt(self, rhs: Self) -> bool {
        self.0 < rhs.0
    }
    fn lt_spec(self, rhs: Self) -> bool {
        self.lt(rhs)
    }
    fn le(self, rhs: Self) -> bool {
        self.0 <= rhs.0
    }
    fn le_spec(self, rhs: Self) -> bool {
        self.le(rhs)
    }
    fn is_zero(self) -> bool {
        self.0 == 0.0
    }
    fn is_zero_spec(self) -> bool {
        self.is_zero()
    }
    fn abs(self) -> Self {
        F64(self.0.abs())
    }
    fn abs_spec(self) -> Self {
        self.abs()
    }
    fn floor(self) -> Self {
        F64(self.0.floor())
    }
    fn floor_spec(self) -> Self {
        self.floor()
    }
    fn ceil(self) -> Self {
        F64(self.0.ceil())
    }
    fn ceil_spec(self) -> Self {
        self.ceil()
    }
    fn log2(self) -> Self {
        F64(self.0.log2())
    }
    fn log2_spec(self) -> Self {
        self.log2()
    }
    fn sinh(self) -> Self {
        F64(self.0.sinh())
    }
    fn sinh_spec(self) -> Self {
        self.sinh()
    }
    fn cosh(self) -> Self {
        F64(self.0.cosh())
    }
    fn cosh_spec(self) -> Self {
        self.cosh()
    }
    fn tan(self) -> Self {
        F64(self.0.tan())
    }
    fn tan_spec(self) -> Self {
        self.tan()
    }
    fn min(self, rhs: Self) -> Self {
        F64(self.0.min(rhs.0))
    }
    fn min_spec(self, rhs: Self) -> Self {
        self.min(rhs)
    }
    fn max(self, rhs: Self) -> Self {
        F64(self.0.max(rhs.0))
    }
    fn max_spec(self, rhs: Self) -> Self {
        self.max(rhs)
    }
    fn rem(self, rhs: Self) -> Self {
        F64(self.0 % rhs.0)
    }
    fn rem_spec(self, rhs: Self) -> Self {
        self.rem(rhs)
    }
    fn rem_euclid(self, rhs: Self) -> Self {
        F64(self.0.rem_euclid(rhs.0))
    }
    fn rem_euclid_spec(self, rhs: Self) -> Self {
        self.rem_euclid(rhs)
    }
    fn powi(self, n: i32) -> Self {
        F64(self.0.powi(n))
    }
    fn powi_spec(self, n: i32) -> Self {
        self.powi(n)
    }
    fn atan2(self, x: Self) -> Self {
        F64(self.0.atan2(x.0))
    }
    fn atan2_spec(self, x: Self) -> Self {
        self.atan2(x)
    }
    fn max_value() -> Self {
        F64(f64::MAX)
    }
    fn max_value_spec() -> Self {
        Self::max_value()
    }
    fn tau() -> Self {
        F64(std::f64::consts::TAU)
    }
    fn tau_spec() -> Self {
        Self::tau()
    }
    fn from_int(n: i64) -> Self {
        F64(n as f64)
    }
    fn from_int_spec(n: i64) -> Self {
        Self::from_int(n)
    }
    fn to_int(self) -> i64 {
        self.0 as i64
    }
    fn to_int_spec(self) -> i64 {
        self.to_int()
    }
}

impl Scalar for F64 {
    type Single = F32;

    fn to_single(self) -> F32 {
        F32(self.0 as f32)
    }
    fn to_single_spec(self) -> F32 {
        self.to_single()
    }
    fn from_single(v: F32) -> Self {
        F64(v.0 as f64)
    }
    fn from_single_spec(v: F32) -> Self {
        Self::from_single(v)
    }
    fn widen_is_exact(_v: F32) {}
}


fn c64(re: f64, im: f64) -> Complex<F64> {
    Complex::new(F64(re), F64(im))
}

fn c32(re: f32, im: f32) -> Complex<F32> {
    Complex::new(F32(re), F32(im))
}

fn v64(x: f64, y: f64) -> Vec2<F64> {
    Vec2::new(F64(x), F64(y))
}

fn close(a: f64, b: f64) -> bool {
    (a - b).abs() <= 1e-12 * (1.0 + a.abs().max(b.abs()))
}

fn close32(a: f32, b: f32) -> bool {
    (a - b).abs() <= 1e-5 * (1.0 + a.abs().max(b.abs()))
}

fn escaped(result: EscapeResult<F32>) -> Option<f32> {
    match result {
        EscapeResult::Escaped(v) => Some(v.0),
        EscapeResult::StayedInside => None,
    }
}

fn params(kind: FractalKind) -> FractalParams<F64> {
    let mut p = FractalParams::<F64>::default();
    p.fractal_kind = kind;
    p.iteration_limit = kind.default_iteration_limit();
    p
}

fn rgb_of(c: Vec3<F32>) -> (f32, f32, f32) {
    (c.x.0, c.y.0, c.z.0)
}

// ---------------------------------------------------------------- scalars

#[test]
fn decimal_constants_are_single_precision_literals() {
    assert_eq!(F32::from_decimal(25, -2).0, 0.25);
    assert_eq!(F64::from_decimal(1, -20).0, 1.0e-20_f32 as f64);
    assert_eq!(F64::from_decimal(2555, -1).0, 255.5);
    assert_eq!(F64::from_decimal(1, 8).0, 1.0e8);
}

#[test]
fn integer_parts_are_held_to_their_range() {
    assert_eq!(to_u32(F64(3.9)), 3);
    assert_eq!(to_u32(F64(-1.5)), 0);
    assert_eq!(to_u32(F64(1.0e20)), u32::MAX);
    assert_eq!(to_u32(F64(f64::NAN)), 0);
    assert_eq!(to_i32(F64(-7.9)), -7);
    assert_eq!(to_i32(F64(-1.0e20)), i32::MIN);
    assert_eq!(to_i32(F64(1.0e20)), i32::MAX);
}

// ------------------------------------------------------------ complex layer

#[test]
fn complex_field_operations() {
    let a = c64(1.0, 2.0);
    let b = c64(3.0, -4.0);
    let sum = a.add(b);
    assert_eq!((sum.re.0, sum.im.0), (4.0, -2.0));
    let diff = a.sub(b);
    assert_eq!((diff.re.0, diff.im.0), (-2.0, 6.0));
    let product = a.mul(b);
    assert_eq!((product.re.0, product.im.0), (11.0, 2.0));
    let quotient = a.div(b);
    assert!(close(quotient.re.0, -0.2) && close(quotient.im.0, 0.4));
    let opposite = a.neg();
    assert_eq!((opposite.re.0, opposite.im.0), (-1.0, -2.0));
    let reciprocal = b.inv();
    assert!(close(reciprocal.re.0, 0.12) && close(reciprocal.im.0, 0.16));
    let conj = a.conjugate();
    assert_eq!((conj.re.0, conj.im.0), (1.0, -2.0));
    assert_eq!(b.modulus_squared().0, 25.0);
    assert_eq!(b.modulus().0, 5.0);
    assert_eq!(a.re().0, 1.0);
    assert_eq!(a.im().0, 2.0);
    let scaled = a.scale(F64(3.0));
    assert_eq!((scaled.re.0, scaled.im.0), (3.0, 6.0));
    let unscaled = a.unscale(F64(2.0));
    assert_eq!((unscaled.re.0, unscaled.im.0), (0.5, 1.0));
    let zero = Complex::<F64>::zero();
    let one = Complex::<F64>::one();
    let i = Complex::<F64>::i();
    assert_eq!((zero.re.0, zero.im.0), (0.0, 0.0));
    assert_eq!((one.re.0, one.im.0), (1.0, 0.0));
    assert_eq!((i.re.0, i.im.0), (0.0, 1.0));
    let i_squared = i.mul(i);
    assert_eq!((i_squared.re.0, i_squared.im.0), (-1.0, 0.0));
}

#[test]
fn complex_polar_form() {
    let z = Complex::<F64>::from_polar(F64(2.0), F64(std::f64::consts::FRAC_PI_2));
    assert!(close(z.re.0, 0.0) || z.re.0.abs() < 1e-15);
    assert!(close(z.im.0, 2.0));
    assert!(close(c64(0.0, 3.0).argument().0, std::f64::consts::FRAC_PI_2));
    assert!(close(c64(-1.0, 0.0).argument().0, std::f64::consts::PI));
    let v = c64(1.5, -2.5).to_vector();
    assert_eq!((v.x.0, v.y.0), (1.5, -2.5));
    let back = Complex::from_vector(v);
    assert_eq!((back.re.0, back.im.0), (1.5, -2.5));
    let cart = Complex::from_cartesian(F64(4.0), F64(5.0));
    assert_eq!((cart.re.0, cart.im.0), (4.0, 5.0));
}

#[test]
fn complex_elementary_functions() {
    let z = c64(0.5, 1.25);
    let e = z.exp();
    assert!(close(e.re.0, 0.5f64.exp() * 1.25f64.cos()));
    assert!(close(e.im.0, 0.5f64.exp() * 1.25f64.sin()));
    let l = z.ln();
    assert!(close(l.re.0, (0.5f64 * 0.5 + 1.25 * 1.25).sqrt().ln()));
    assert!(close(l.im.0, 1.25f64.atan2(0.5)));
    let s = z.sin();
    assert!(close(s.re.0, 0.5f64.sin() * 1.25f64.cosh()));
    assert!(close(s.im.0, 0.5f64.cos() * 1.25f64.sinh()));
    let c = z.cos();
    assert!(close(c.re.0, 0.5f64.cos() * 1.25f64.cosh()));
    assert!(close(c.im.0, -(0.5f64.sin()) * 1.25f64.sinh()));
    let q = z.squared();
    assert_eq!((q.re.0, q.im.0), (0.25 - 1.5625, 1.25));
    let p = c64(2.0, 0.0).pow(c64(3.0, 0.0));
    assert!(close(p.re.0, 8.0) && p.im.0.abs() < 1e-12);
    let lg = c64(8.0, 0.0).log(c64(2.0, 0.0));
    assert!(close(lg.re.0, 3.0) && lg.im.0.abs() < 1e-12);
}

#[test]
fn complex_sqrt_follows_its_stated_formula() {
    let z = c64(3.0, -4.0);
    let r = z.sqrt();
    assert_eq!(r.re.0, (5.0 + 3.0) / 2.0);
    assert_eq!(r.im.0, -1.0 * (5.0 - 3.0) / 2.0);
    let up = c64(3.0, 4.0).sqrt();
    assert_eq!(up.im.0, (5.0 - 3.0) / 2.0);
}

#[test]
fn fuzzy_equality_is_by_part_and_inclusive() {
    let a = c64(1.0, 1.0);
    assert!(a.fuzzy_eq(c64(1.25, 0.75), F64(0.25)));
    assert!(!a.fuzzy_eq(c64(1.5, 1.0), F64(0.25)));
    assert!(!a.fuzzy_eq(c64(1.0, 0.5), F64(0.25)));
    assert!(a.fuzzy_eq(a, F64(0.0)));
}

#[test]
fn division_by_zero_modulus_saturates() {
    let z = c64(1.0, -2.0);
    let by_zero = z.div_saturating(c64(0.0, 0.0));
    assert_eq!((by_zero.re.0, by_zero.im.0), (1.0e10, -2.0e10));
    assert!(by_zero.re.0.is_finite() && by_zero.im.0.is_finite());
    let plain = z.div_saturating(c64(0.0, 2.0));
    let direct = z.div(c64(0.0, 2.0));
    assert_eq!((plain.re.0, plain.im.0), (direct.re.0, direct.im.0));
    assert_eq!(Complex::<F64>::saturating_inv(F64(0.0)).0, 1.0e10);
    assert_eq!(Complex::<F64>::saturating_inv(F64(4.0)).0, 0.25);
    let n = c64(3.0, 4.0).normalize();
    assert!(close(n.re.0, 0.6) && close(n.im.0, 0.8));
    let nz = c64(0.0, 0.0).normalize();
    assert_eq!((nz.re.0, nz.im.0), (0.0, 0.0));
}

#[test]
fn narrowing_rounds_and_widening_is_exact() {
    let wide = c64(0.1, -0.3);
    let narrow: Complex<F32> = wide.to_single();
    assert_eq!((narrow.re.0, narrow.im.0), (0.1f64 as f32, -0.3f64 as f32));
    let again = Complex::<F64>::from_single(narrow);
    assert_eq!((again.re.0, again.im.0), (narrow.re.0 as f64, narrow.im.0 as f64));
    let back = again.to_single();
    assert_eq!(back.re.0.to_bits(), narrow.re.0.to_bits());
    assert_eq!(back.im.0.to_bits(), narrow.im.0.to_bits());
}

// ------------------------------------------------------- function algebra

#[test]
fn product_rule_on_reals() {
    let x = Func(Identity);
    let f = x.squared().mul(x);
    let d = f.derivative::<F64>();
    assert_eq!(f.get(F64(2.0)), F64(8.0));
    assert_eq!(d.get(F64(2.0)), F64(12.0));
}

#[test]
fn sum_difference_and_negation_rules() {
    let x = Func(Identity);
    let f = x.squared().add(x).sub(Func::constant(F64(3.0))).neg();
    assert_eq!(f.get(F64(2.0)), F64(-3.0));
    let d = f.derivative::<F64>();
    assert_eq!(d.get(F64(2.0)), F64(-5.0));
}

#[test]
fn quotient_and_inverse_rules() {
    let x = Func(Identity);
    let f = x.div(x.squared().add(Func::constant(F64(1.0))));
    assert_eq!(f.get(F64(2.0)), F64(0.4));
    let d = f.derivative::<F64>();
    assert!(close(d.get(F64(2.0)).0, (5.0 - 8.0) / 25.0));
    let g = x.squared().inv();
    assert_eq!(g.get(F64(2.0)), F64(0.25));
    assert!(close(g.derivative::<F64>().get(F64(2.0)).0, -0.25));
}

#[test]
fn chain_rule_on_reals() {
    let x = Func(Identity);
    let f = x.squared().exp();
    assert!(close(f.get(F64(1.5)).0, (2.25f64).exp()));
    let d = f.derivative::<F64>();
    assert!(close(d.get(F64(1.5)).0, 3.0 * (2.25f64).exp()));
    let h = Func(Identity).sin().compose(Func(Identity).squared());
    assert!(close(h.get(F64(0.5)).0, 0.25f64.sin()));
    assert!(close(h.derivative::<F64>().get(F64(0.5)).0, 0.25f64.cos()));
}

#[test]
fn derivatives_of_elementary_functions() {
    let x = Func(Identity);
    let at = F64(0.75);
    assert!(close(x.ln().derivative::<F64>().get(at).0, 1.0 / 0.75));
    assert!(close(x.sin().derivative::<F64>().get(at).0, 0.75f64.cos()));
    assert!(close(x.cos().derivative::<F64>().get(at).0, -(0.75f64.sin())));
    assert!(close(x.tan().get(at).0, 0.75f64.tan()));
    assert!(close(
        x.tan().derivative::<F64>().get(at).0,
        1.0 / (0.75f64.cos() * 0.75f64.cos())
    ));
    assert!(close(x.sqrt().get(F64(4.0)).0, 2.0));
    assert!(close(x.sqrt().derivative::<F64>().get(F64(4.0)).0, 0.25));
    assert!(close(x.exp().derivative::<F64>().get(at).0, 0.75f64.exp()));
    assert!(close(x.pow_const(F64(3.0)).get(F64(2.0)).0, 8.0));
    assert!(close(x.pow_const(F64(3.0)).derivative::<F64>().get(F64(2.0)).0, 12.0));
    assert!(close(x.log(Func::constant(F64(2.0))).get(F64(8.0)).0, 3.0));
}

#[test]
fn power_of_two_expressions() {
    let x = Func(Identity);
    let f = x.pow(x);
    assert!(close(f.get(F64(2.0)).0, 4.0));
    let d = f.derivative::<F64>();
    assert!(close(d.get(F64(2.0)).0, 4.0 * (2.0f64.ln() + 1.0)));
}

#[test]
fn constants_and_identity() {
    let k = Func::constant(F64(7.0));
    assert_eq!(k.get(F64(123.0)), F64(7.0));
    assert_eq!(k.derivative::<F64>().get(F64(123.0)), F64(0.0));
    let x = Func(Identity);
    assert_eq!(x.get(F64(5.0)), F64(5.0));
    assert_eq!(x.derivative::<F64>().get(F64(5.0)), F64(1.0));
    let d = Func::<Identity>::default();
    assert_eq!(d.get(F64(2.5)), F64(2.5));
    let made = Func::make(|x: Func<Identity>| x.squared());
    assert_eq!(made.get(F64(3.0)), F64(9.0));
}

#[test]
fn operators_build_the_expressions_of_the_methods() {
    let x = Func(Identity);
    let k = Func::constant(F64(3.0));
    let by_operators = -((x.squared() * x + k) / (x - k));
    let by_methods = x.squared().mul(x).add(k).div(x.sub(k)).neg();
    for at in [0.5, 1.0, 2.0, -4.0] {
        assert_eq!(by_operators.get(F64(at)), by_methods.get(F64(at)));
        assert_eq!(
            by_operators.derivative::<F64>().get(F64(at)),
            by_methods.derivative::<F64>().get(F64(at))
        );
    }
    assert_eq!(by_operators.get(F64(2.0)), F64(11.0));
    let z = Func(Identity);
    let f = z.squared() + c64(0.0, 1.0);
    let y = f.get(c64(1.0, 1.0));
    assert_eq!((y.re.0, y.im.0), (0.0, 3.0));
}

#[test]
fn complex_constants_stand_for_expressions() {
    let z = Func(Identity);
    let f = z.squared().add(c64(0.0, 1.0));
    let y = f.get(c64(1.0, 1.0));
    assert_eq!((y.re.0, y.im.0), (0.0, 3.0));
    let d = f.derivative::<Complex<F64>>().get(c64(1.0, 1.0));
    assert_eq!((d.re.0, d.im.0), (2.0, 2.0));
}

#[test]
fn orbit_expressions_carry_their_derivative() {
    let f = Func(Z).squared().add(Func(C(c64(0.25, 0.5))));
    let value = f.get((c64(1.0, 2.0), c64(0.0, 0.0)));
    assert_eq!((value.re.0, value.im.0), (-3.0 + 0.25, 4.0 + 0.5));
    let d = f.derivative::<(Complex<F64>, Complex<F64>)>();
    // dz * (2 * z) + 1
    let step = d.get((c64(1.0, 2.0), c64(1.0, 0.0)));
    assert_eq!((step.re.0, step.im.0), (3.0, 4.0));
    let alone = Partial(f.0).get(c64(1.0, 2.0));
    assert_eq!((alone.re.0, alone.im.0), (-2.75, 4.5));
}

// ------------------------------------------------------ escape-time engine

struct Square {
    c: Complex<F64>,
    calls: Cell<u32>,
}

impl Function<Complex<F64>> for Square {
    type Output = Complex<F64>;

    fn get(&self, z: Complex<F64>) -> Complex<F64> {
        self.calls.set(self.calls.get() + 1);
        z.squared().add(self.c)
    }

    fn get_spec(&self, z: Complex<F64>) -> Complex<F64> {
        z.squared().add(self.c)
    }
}

fn square(re: f64, im: f64) -> Square {
    Square { c: c64(re, im), calls: Cell::new(0) }
}

/// Plays back a fixed run of points, whatever it is asked.
struct Script {
    points: Vec<f64>,
    calls: Cell<usize>,
}

impl Function<Complex<F64>> for Script {
    type Output = Complex<F64>;

    fn get(&self, _z: Complex<F64>) -> Complex<F64> {
        let k = self.calls.get();
        self.calls.set(k + 1);
        c64(self.points[k], 0.0)
    }

    fn get_spec(&self, z: Complex<F64>) -> Complex<F64> {
        z
    }
}

#[test]
fn origin_stays_inside_the_mandelbrot_set() {
    let p = params(FractalKind::MandelbrotSet);
    assert!(escaped(mandelbrot_value(c64(0.0, 0.0), p)).is_none());
    let f = square(0.0, 0.0);
    let r = compute_escape_time::<F64, _>(c64(0.0, 0.0), 1024, F32(2.0), None, &f);
    assert!(escaped(r).is_none());
}

#[test]
fn two_escapes_at_the_first_step_beyond_the_radius() {
    // the orbit of 0 under z^2 + 2 is 0, 2, 6: the first point whose squared
    // modulus exceeds 4 is met at the start of step 3
    let f = square(2.0, 0.0);
    let r = compute_escape_time::<F64, _>(c64(0.0, 0.0), 1024, F32(2.0), None, &f);
    assert_eq!(escaped(r), Some(3.0));
    assert_eq!(f.calls.get(), 2);
}

#[test]
fn escape_is_tested_before_the_step() {
    let f = square(0.0, 0.0);
    let r = compute_escape_time::<F64, _>(c64(3.0, 0.0), 10, F32(2.0), None, &f);
    assert_eq!(escaped(r), Some(1.0));
    assert_eq!(f.calls.get(), 0);
}

#[test]
fn no_iterations_means_inside() {
    let f = square(0.0, 0.0);
    let r = compute_escape_time::<F64, _>(c64(3.0, 0.0), 0, F32(2.0), None, &f);
    assert!(escaped(r).is_none());
}

#[test]
fn running_out_of_iterations_means_inside() {
    // 0, 2, 6: two steps are not enough to see the escape at step 3
    let f = square(2.0, 0.0);
    let r = compute_escape_time::<F64, _>(c64(0.0, 0.0), 2, F32(2.0), None, &f);
    assert!(escaped(r).is_none());
}

#[test]
fn smoothed_estimate_follows_the_potential() {
    // 0, 1, 2, 5: escape at step 4 with |z|^2 = 25
    let f = square(1.0, 0.0);
    let r = compute_escape_time::<F64, _>(c64(0.0, 0.0), 100, F32(2.0), Some(F32(2.0)), &f);
    let log_zn = 25.0f32.ln() / 2.0;
    let expected = (4.0f32 + 1.0 - log_zn.ln() / 2.0f32.ln()).max(1.0);
    assert_eq!(escaped(r), Some(expected));
}

#[test]
fn smoothed_estimate_is_never_below_one() {
    let f = square(0.0, 0.0);
    let r = compute_escape_time::<F64, _>(c64(1.0e30, 0.0), 10, F32(2.0), Some(F32(2.0)), &f);
    assert_eq!(escaped(r), Some(1.0));
}

#[test]
fn a_fixed_point_is_caught_at_once() {
    let f = square(0.0, 0.0);
    let r = compute_escape_time::<F64, _>(c64(0.0, 0.0), 1_000_000, F32(2.0), None, &f);
    assert!(escaped(r).is_none());
    assert_eq!(f.calls.get(), 1);
}

#[test]
fn a_cycle_through_the_start_is_caught() {
    // 0, -1, 0: the second step comes back to the starting point
    let f = square(-1.0, 0.0);
    let r = compute_escape_time::<F64, _>(c64(0.0, 0.0), 1_000_000, F32(2.0), None, &f);
    assert!(escaped(r).is_none());
    assert_eq!(f.calls.get(), 2);
}

#[test]
fn points_are_saved_at_step_seven_of_every_thirty_two() {
    // step 5 repeats the point of step 3, which was never saved; step 8
    // repeats the point of step 7, which was
    let f = Script {
        points: vec![0.1, 0.2, 0.3, 0.4, 0.3, 0.5, 0.6, 0.6, 0.7, 0.8],
        calls: Cell::new(0),
    };
    let r = compute_escape_time::<F64, _>(c64(0.0, 0.0), 10, F32(2.0), None, &f);
    assert!(escaped(r).is_none());
    assert_eq!(f.calls.get(), 8);
}

#[test]
fn the_saved_point_is_kept_until_the_next_save() {
    // the point of step 7 (0.07) comes again at step 20, and no earlier
    let mut points: Vec<f64> = (1..=40).map(|k| k as f64 / 100.0).collect();
    points[19] = 0.07;
    let f = Script { points, calls: Cell::new(0) };
    let r = compute_escape_time::<F64, _>(c64(0.0, 0.0), 40, F32(2.0), None, &f);
    assert!(escaped(r).is_none());
    assert_eq!(f.calls.get(), 20);
}

#[test]
fn the_save_of_step_thirty_nine_replaces_that_of_step_seven() {
    // after step 39 the point of step 7 is forgotten: its return at step 41
    // goes unseen and the run uses all of its 45 steps
    let mut points: Vec<f64> = (1..=45).map(|k| k as f64 / 100.0).collect();
    points[40] = 0.07;
    let f = Script { points: points.clone(), calls: Cell::new(0) };
    let r = compute_escape_time::<F64, _>(c64(0.0, 0.0), 45, F32(2.0), None, &f);
    assert!(escaped(r).is_none());
    assert_eq!(f.calls.get(), 45);
    // the return of the point of step 39 is seen
    points[40] = 0.39;
    let f = Script { points, calls: Cell::new(0) };
    let r = compute_escape_time::<F64, _>(c64(0.0, 0.0), 45, F32(2.0), None, &f);
    assert!(escaped(r).is_none());
    assert_eq!(f.calls.get(), 41);
}

#[test]
fn orbit_trap_takes_the_least_distance_of_the_whole_orbit() {
    // 0.5 -> 0.25+c ...: with c = -0.5 the orbit is -0.25, -0.4375, ...
    let f = square(-0.5, 0.0);
    let d = compute_orbit_trap::<F64, _, _>(c64(0.5, 0.0), 3, &f, &PointTrap);
    let z1 = 0.25f64 - 0.5;
    let z2 = z1 * z1 - 0.5;
    let z3 = z2 * z2 - 0.5;
    let least = (z1 * z1).min(z2 * z2).min(z3 * z3);
    assert_eq!(d.0, least as f32);
    assert_eq!(f.calls.get(), 3);
}

#[test]
fn orbit_trap_ignores_the_bailout_and_the_start() {
    // the start, at distance 0 from the trap, is not measured; the orbit
    // runs far beyond any bailout radius
    let f = square(3.0, 0.0);
    let d = compute_orbit_trap::<F64, _, _>(c64(0.0, 0.0), 4, &f, &PointTrap);
    assert_eq!(d.0, 9.0);
    assert_eq!(f.calls.get(), 4);
}

#[test]
fn orbit_trap_without_steps_is_the_largest_number() {
    let f = square(3.0, 0.0);
    let d = compute_orbit_trap::<F64, _, _>(c64(0.0, 0.0), 0, &f, &PointTrap);
    assert_eq!(d.0, f64::MAX as f32);
}

#[test]
fn cross_trap_measures_the_nearer_axis() {
    let f = square(0.5, 0.25);
    let d = compute_orbit_trap::<F64, _, _>(c64(0.0, 0.0), 2, &f, &CrossTrap);
    // z1 = (0.5, 0.25); z2 = (0.25 - 0.0625 + 0.5, 0.25 + 0.25)
    let z1 = 0.25f64;
    let z2 = 0.5f64.min(0.6875);
    assert_eq!(d.0, z1.min(z2) as f32);
    assert_eq!(CrossTrap.get(c64(-3.0, 2.0)).0, 2.0);
    assert_eq!(PointTrap.get(c64(-3.0, 2.0)).0, 13.0);
}

#[test]
fn normal_map_shades_by_the_direction_of_escape() {
    let c = c64(1.0, 0.5);
    let f = Func(Z).squared().add(Func(C(c)));
    let r = compute_normal_map::<F64, _>(c64(0.0, 0.0), 50, F32(2.0), &f);
    // reference run
    let (mut zr, mut zi, mut dr, mut di) = (0.0f64, 0.0f64, 0.0f64, 0.0f64);
    let mut shade = None;
    for _ in 0..50 {
        if zr * zr + zi * zi > 4.0 {
            let z = c64(zr, zi);
            let u = z.div(c64(dr, di));
            let m = (u.re.0 * u.re.0 + u.im.0 * u.im.0).sqrt();
            let (ur, ui) = (u.re.0 / m, u.im.0 / m);
            let angle = 45.0f32 * std::f32::consts::TAU / 360.0;
            let (lr, li) = ((angle.cos() * 1.0) as f64, (angle.sin() * 1.0) as f64);
            let t = (ur * lr + ui * li) as f32;
            shade = Some((t + 1.0) / 2.0);
            break;
        }
        // dz <- dz * (2 * z) + 1, then z <- z^2 + c
        let (tr, ti) = (2.0 * zr, 2.0 * zi);
        let (nr, ni) = (dr * tr - di * ti + 1.0, dr * ti + di * tr + 0.0);
        dr = nr;
        di = ni;
        let (sr, si) = (zr * zr - zi * zi + c.re.0, 2.0 * zr * zi + c.im.0);
        zr = sr;
        zi = si;
    }
    assert!(shade.is_some());
    assert_eq!(escaped(r), shade);
    let v = shade.unwrap();
    assert!(v >= 0.0 && v <= 1.0);
}

#[test]
fn normal_map_is_finite_where_the_derivative_is_zero() {
    // the start is already outside: the derivative is still zero
    let f = Func(Z).squared().add(Func(C(c64(0.0, 0.0))));
    let r = compute_normal_map::<F64, _>(c64(3.0, 1.0), 50, F32(2.0), &f);
    let v = escaped(r).unwrap();
    assert!(v.is_finite());
    // z / 0 saturates to z * 1e10, whose direction is that of z
    let m = (10.0f64).sqrt();
    let angle = 45.0f32 * std::f32::consts::TAU / 360.0;
    let u = c64(3.0e10, 1.0e10).normalize();
    assert!(close(u.re.0, 3.0 / m) && close(u.im.0, 1.0 / m));
    let t = (u.re.0 * (angle.cos() as f64) + u.im.0 * (angle.sin() as f64)) as f32;
    assert_eq!(v, (t + 1.0) / 2.0);
}

#[test]
fn normal_map_inside() {
    let f = Func(Z).squared().add(Func(C(c64(0.0, 0.0))));
    let r = compute_normal_map::<F64, _>(c64(0.5, 0.0), 50, F32(2.0), &f);
    assert!(escaped(r).is_none());
}

#[test]
fn variation_picks_the_start_and_the_constant() {
    // plain: z0 = 0, c = pos. Julia: z0 = pos, c = secondary position.
    let mut p = params(FractalKind::MandelbrotSet);
    p.iteration_limit = 1;
    p.render_technique = RenderTechnique::OrbitTrapPoint;
    let pos = c64(0.5, 0.0);
    let plain = compute_escape_time_fractal(pos, p, F32(2.0), None, build_step::<F64>);
    assert_eq!(escaped(plain), Some(0.25));
    p.variation = FractalVariation::JuliaSet;
    p.secondary_pos = c64(1.0, 0.0);
    let julia = compute_escape_time_fractal(pos, p, F32(2.0), None, build_step::<F64>);
    assert_eq!(escaped(julia), Some(1.5625));
}

#[test]
fn technique_picks_the_algorithm() {
    let mut p = params(FractalKind::MandelbrotSet);
    p.iteration_limit = 20;
    let pos = c64(1.0, 0.0);
    p.render_technique = RenderTechnique::Normal;
    let normal = compute_escape_time_fractal(pos, p, F32(2.0), None, build_step::<F64>);
    assert_eq!(escaped(normal), Some(4.0));
    p.render_technique = RenderTechnique::OrbitTrapPoint;
    let point = compute_escape_time_fractal(pos, p, F32(2.0), None, build_step::<F64>);
    assert_eq!(escaped(point), Some(1.0));
    p.render_technique = RenderTechnique::OrbitTrapCross;
    let cross = compute_escape_time_fractal(pos, p, F32(2.0), None, build_step::<F64>);
    assert_eq!(escaped(cross), Some(0.0));
    p.render_technique = RenderTechnique::NormalMap;
    let shade = escaped(compute_escape_time_fractal(pos, p, F32(2.0), None, build_step::<F64>));
    let direct =
        escaped(compute_normal_map::<F64, _>(c64(0.0, 0.0), 20, F32(2.0), &build_step(Func(Z), Func(C(pos)))));
    assert!(shade.is_some());
    assert_eq!(shade, direct);
}

#[test]
fn default_bailout_is_ten_to_the_eighth() {
    assert_eq!(default_bailout_radius::<F32>().0, 1.0e8);
}

// ------------------------------------------------------------- the families

#[test]
fn default_iteration_limits() {
    assert_eq!(FractalKind::MandelbrotSet.default_iteration_limit(), 1024);
    assert_eq!(FractalKind::Multibrot3.default_iteration_limit(), 1024);
    assert_eq!(FractalKind::Tricorn.default_iteration_limit(), 1024);
    assert_eq!(FractalKind::BurningShip.default_iteration_limit(), 1024);
    assert_eq!(FractalKind::CosLeaf.default_iteration_limit(), 1024);
    assert_eq!(FractalKind::Newton3.default_iteration_limit(), 128);
    assert_eq!(FractalKind::Lyapunov.default_iteration_limit(), 1024);
}

#[test]
fn default_parameters() {
    let p = FractalParams::<F64>::default();
    assert_eq!((p.secondary_pos.re.0, p.secondary_pos.im.0), (0.0, 0.0));
    assert_eq!(p.fractal_kind, FractalKind::MandelbrotSet);
    assert_eq!(p.variation, FractalVariation::Normal);
    assert_eq!(p.render_technique, RenderTechnique::Normal);
    assert_eq!(p.iteration_limit, 1024);
    assert_eq!(p.color_palette, ColorPalette::Default);
    assert_eq!(p.color_frequency.0, 1.0);
}

fn in_cardioid_or_bulb(re: f64, im: f64) -> bool {
    let q = (re - 0.25) * (re - 0.25) + im * im;
    q * (q + (re - 0.25)) <= 0.25 * im * im || (re + 1.0) * (re + 1.0) + im * im < 0.0625
}

#[test]
fn shortcut_agrees_with_the_full_iteration() {
    let p = params(FractalKind::MandelbrotSet);
    let mut inside = 0;
    for i in 0..40 {
        for j in 0..40 {
            let re = -1.3 + 1.7 * (i as f64) / 39.0;
            let im = -0.7 + 1.4 * (j as f64) / 39.0;
            if !in_cardioid_or_bulb(re, im) {
                continue;
            }
            inside += 1;
            let pos = c64(re, im);
            assert!(escaped(mandelbrot_value(pos, p)).is_none());
            let full = compute_escape_time_fractal(
                pos,
                p,
                default_bailout_radius(),
                Some(F32(2.0)),
                build_step::<F64>,
            );
            assert!(escaped(full).is_none());
        }
    }
    assert!(inside > 100);
}

#[test]
fn shortcut_is_for_the_plain_set_by_escape_time_only() {
    // a point of the main cardioid: inside by the shortcut, but a value
    // under any other technique or for a Julia set
    let pos = c64(-0.1, 0.1);
    let mut p = params(FractalKind::MandelbrotSet);
    assert!(escaped(mandelbrot_value(pos, p)).is_none());
    p.render_technique = RenderTechnique::OrbitTrapPoint;
    assert!(escaped(mandelbrot_value(pos, p)).is_some());
    p.render_technique = RenderTechnique::Normal;
    p.variation = FractalVariation::JuliaSet;
    p.secondary_pos = c64(1.0, 1.0);
    assert!(escaped(mandelbrot_value(pos, p)).is_some());
}

fn reference_escape(
    mut zr: f64,
    mut zi: f64,
    limit: u32,
    bailout: f32,
    power: Option<f32>,
    step: &dyn Fn(f64, f64) -> (f64, f64),
) -> Option<f32> {
    let b = bailout as f64;
    let (mut pr, mut pi) = (zr, zi);
    let eps = 1.0e-20_f32 as f64;
    for i in 1..=limit {
        let l = zr * zr + zi * zi;
        if l > b * b {
            return Some(match power {
                Some(p) => {
                    let log_zn = (l as f32).ln() / 2.0;
                    (i as f32 + 1.0 - log_zn.ln() / p.ln()).max(1.0)
                }
                None => i as f32,
            });
        }
        let (nr, ni) = step(zr, zi);
        zr = nr;
        zi = ni;
        if (zr - pr).abs() <= eps && (zi - pi).abs() <= eps {
            return None;
        }
        if i % 32 == 7 {
            pr = zr;
            pi = zi;
        }
    }
    None
}

#[test]
fn mandelbrot_outside_the_set() {
    let p = params(FractalKind::MandelbrotSet);
    let (cr, ci) = (0.3, 0.6);
    let expected =
        reference_escape(0.0, 0.0, 1024, 1.0e8, Some(2.0), &|zr, zi| (zr * zr - zi * zi + cr, 2.0 * zr * zi + ci));
    assert!(expected.is_some());
    assert_eq!(escaped(mandelbrot_value(c64(cr, ci), p)), expected);
}

#[test]
fn multibrot_matches_its_formula() {
    let p = params(FractalKind::Multibrot3);
    let (cr, ci) = (0.7, 0.4);
    let expected = reference_escape(0.0, 0.0, 1024, 1.0e6, Some(3.0), &|zr, zi| {
        let (sr, si) = (zr * zr - zi * zi, 2.0 * zr * zi);
        (sr * zr - si * zi + cr, sr * zi + si * zr + ci)
    });
    assert!(expected.is_some());
    assert_eq!(escaped(multibrot3(c64(cr, ci), p)), expected);
    assert!(escaped(multibrot3(c64(0.0, 0.0), p)).is_none());
}

#[test]
fn tricorn_matches_its_formula() {
    let p = params(FractalKind::Tricorn);
    let (cr, ci) = (0.9, 0.8);
    let expected = reference_escape(0.0, 0.0, 1024, 1.0e8, Some(2.0), &|zr, zi| {
        let (ar, ai) = (zr, -zi);
        (ar * ar - ai * ai + cr, 2.0 * ar * ai + ci)
    });
    assert!(expected.is_some());
    assert_eq!(escaped(tricorn(c64(cr, ci), p)), expected);
    assert!(escaped(tricorn(c64(0.0, 0.0), p)).is_none());
}

#[test]
fn burning_ship_matches_its_formula() {
    let p = params(FractalKind::BurningShip);
    let (cr, ci) = (-0.4, -0.9);
    let expected = reference_escape(0.0, 0.0, 1024, 1.0e8, Some(2.0), &|zr, zi| {
        let (ar, ai) = (zr.abs(), zi.abs());
        (ar * ar - ai * ai + cr, 2.0 * ar * ai + ci)
    });
    assert!(expected.is_some());
    assert_eq!(escaped(burning_ship(c64(cr, ci), p)), expected);
    assert!(escaped(burning_ship(c64(0.0, 0.0), p)).is_none());
}

#[test]
fn cos_leaf_matches_its_formula() {
    let p = params(FractalKind::CosLeaf);
    let (cr, ci) = (0.1, 0.3);
    let expected = reference_escape(0.0, 0.0, 1024, 100.0, None, &|zr, zi| {
        let w = c64(zr, zi).div(c64(cr, ci));
        (w.re.0.cos() * w.im.0.cosh(), -(w.re.0.sin()) * w.im.0.sinh())
    });
    assert_eq!(escaped(cos_leaf(c64(cr, ci), p)), expected);
    // cos is bounded on the real line: a real constant never escapes
    assert!(escaped(cos_leaf(c64(2.0, 0.0), p)).is_none());
}

#[test]
fn newton_seeded_at_a_root_gives_the_colour_of_the_root() {
    let p = params(FractalKind::Newton3);
    let h = (3.0f32.sqrt() / 2.0) as f64;
    let roots = [(1.0, 0.0), (-0.5, h), (-0.5, -h)];
    let pure = [(1.0, 0.0, 0.0), (0.0, 1.0, 0.0), (0.0, 0.0, 1.0)];
    for k in 0..3 {
        let colour = rgb_of(newton3(c64(roots[k].0, roots[k].1), p));
        assert!((colour.0 - pure[k].0).abs() < 1.0e-6);
        assert!((colour.1 - pure[k].1).abs() < 1.0e-6);
        assert!((colour.2 - pure[k].2).abs() < 1.0e-6);
    }
}

#[test]
fn newton_at_the_real_root_takes_no_step() {
    // at z = 1 the first step is zero: the run ends with the point unmoved
    let f = Func::make(build_cubic::<F64>);
    let red = Vec3::new(F32(1.0), F32(0.0), F32(0.0));
    let colour = newton::<F64, _, 1>(
        128,
        c64(1.0, 0.0),
        c64(0.0, 0.0),
        c64(1.0, 0.0),
        [c64(1.0, 0.0)],
        [red],
        f,
    );
    // the one root carries the whole weight
    assert_eq!(rgb_of(colour), (1.0, 0.0, 0.0));
}

#[test]
fn newton_blends_by_inverse_square_distance() {
    // no step at all: the point stays where it starts
    let f = Func::make(build_cubic::<F64>);
    let colour = newton::<F64, _, 2>(
        0,
        c64(1.0, 0.0),
        c64(0.0, 0.0),
        c64(0.0, 0.0),
        [c64(1.0, 0.0), c64(0.0, 2.0)],
        [Vec3::new(F32(1.0), F32(0.0), F32(0.0)), Vec3::new(F32(0.0), F32(1.0), F32(0.0))],
        f,
    );
    // weights 1 and 1/4 of a sum of 5/4
    assert_eq!(rgb_of(colour), (0.8, 0.2, 0.0));
}

#[test]
fn newton_weights_are_held_to_ten_to_the_tenth() {
    let f = Func::make(build_cubic::<F64>);
    let colour = newton::<F64, _, 2>(
        0,
        c64(1.0, 0.0),
        c64(0.0, 0.0),
        c64(0.0, 0.0),
        [c64(0.0, 0.0), c64(1.0e-5, 0.0)],
        [Vec3::new(F32(1.0), F32(0.0), F32(0.0)), Vec3::new(F32(0.0), F32(1.0), F32(0.0))],
        f,
    );
    // 1/0 and 1/1e-10 both count for 1e10
    let (r, g, b) = rgb_of(colour);
    assert!(r.is_finite() && g.is_finite());
    assert!((r - 0.5).abs() < 1.0e-6 && (g - 0.5).abs() < 1.0e-6);
    assert_eq!(b, 0.0);
}

#[test]
fn newton_runs_to_the_nearest_basin() {
    let p = params(FractalKind::Newton3);
    let near_one = rgb_of(newton3(c64(2.0, 0.1), p));
    assert!(near_one.0 > 0.999 && near_one.1 < 1.0e-3 && near_one.2 < 1.0e-3);
    let near_second = rgb_of(newton3(c64(-1.0, 1.5), p));
    assert!(near_second.1 > 0.999);
    let near_third = rgb_of(newton3(c64(-1.0, -1.5), p));
    assert!(near_third.2 > 0.999);
}

#[test]
fn newton_survives_a_zero_derivative() {
    // at the origin the derivative of z^3 - 1 is zero
    let p = params(FractalKind::Newton3);
    let (r, g, b) = rgb_of(newton3(c64(0.0, 0.0), p));
    assert!(r.is_finite() && g.is_finite() && b.is_finite());
    assert!(close32(r + g + b, 1.0));
}

#[test]
fn newton_julia_variation_offsets_each_step() {
    // the secondary position is the start and the point is the offset
    let mut p = params(FractalKind::Newton3);
    p.variation = FractalVariation::JuliaSet;
    p.secondary_pos = c64(1.0, 0.0);
    let unmoved = rgb_of(newton3(c64(0.0, 0.0), p));
    assert!((unmoved.0 - 1.0).abs() < 1.0e-6);
    p.variation = FractalVariation::Normal;
    let plain = rgb_of(newton3(c64(1.0, 0.0), p));
    assert_eq!(unmoved, plain);
}

fn reference_lyapunov(x0: f64, y0: f64, count: u32) -> f32 {
    if x0 < 0.0 || y0 < 0.0 || x0 > 4.0 || y0 > 4.0 {
        return 0.0;
    }
    let sequence = [false, true];
    let mut x = 0.5f64;
    let mut sum = 0.0f32;
    for i in 0..count as usize {
        let rn = if sequence[i % 2] { y0 } else { x0 };
        if i != 0 {
            sum += ((rn * (1.0 - 2.0 * x)) as f32).abs().ln();
        }
        x = rn * x * (1.0 - x);
    }
    sum / count as f32
}

#[test]
fn lyapunov_exponent_matches_its_definition() {
    for &(x, y) in [(3.4, 2.9), (2.5, 3.5), (3.9, 3.9), (1.0, 2.0)].iter() {
        let e = lyapunov::<F64, 2>(&[false, true], v64(x, y), 1024);
        assert_eq!(e.0, reference_lyapunov(x, y, 1024));
    }
    // stable below the first bifurcation, chaotic near four
    assert!(lyapunov::<F64, 2>(&[false, true], v64(2.5, 2.5), 1024).0 < 0.0);
    assert!(lyapunov::<F64, 2>(&[false, true], v64(3.9, 3.9), 1024).0 > 0.0);
}

#[test]
fn lyapunov_outside_the_square_is_zero() {
    for &(x, y) in [(-0.1, 2.0), (2.0, -0.1), (4.1, 2.0), (2.0, 4.1)].iter() {
        assert_eq!(lyapunov::<F64, 2>(&[false, true], v64(x, y), 1024).0, 0.0);
    }
    // the border belongs to the square
    assert_eq!(
        lyapunov::<F64, 2>(&[false, true], v64(4.0, 4.0), 16).0,
        reference_lyapunov(4.0, 4.0, 16)
    );
}

#[test]
fn lyapunov_sequence_selects_the_rate() {
    let only_x = lyapunov::<F64, 1>(&[false], v64(3.2, 1.0), 64);
    let only_y = lyapunov::<F64, 1>(&[true], v64(1.0, 3.2), 64);
    assert_eq!(only_x.0, only_y.0);
    let three = lyapunov::<F64, 3>(&[false, false, true], v64(3.2, 2.8), 64);
    let two = lyapunov::<F64, 2>(&[false, true], v64(3.2, 2.8), 64);
    assert!(three.0 != two.0);
}

// --------------------------------------------------------- colour mapping

#[test]
fn palettes_hold_their_six_colours() {
    let d = ColorPalette::Default.colors::<F32>();
    let list: Vec<(f32, f32, f32)> = d.iter().map(|c| rgb_of(*c)).collect();
    assert_eq!(
        list,
        vec![
            (1.0, 0.5, 0.0),
            (0.5, 0.0, 1.0),
            (0.0, 0.0, 1.0),
            (0.0, 1.0, 1.0),
            (1.0, 1.0, 1.0),
            (1.0, 1.0, 0.0)
        ]
    );
    let f = ColorPalette::Flames.colors::<F32>();
    let list: Vec<(f32, f32, f32)> = f.iter().map(|c| rgb_of(*c)).collect();
    assert_eq!(
        list,
        vec![
            (1.0, 1.0, 0.0),
            (1.0, 0.0, 0.0),
            (0.0, 0.0, 0.0),
            (1.0, 0.0, 0.0),
            (1.0, 1.0, 0.0),
            (1.0, 1.0, 1.0)
        ]
    );
    let t = ColorPalette::Temperature.colors::<F32>();
    let list: Vec<(f32, f32, f32)> = t.iter().map(|c| rgb_of(*c)).collect();
    assert_eq!(
        list,
        vec![
            (0.0, 1.0, 1.0),
            (0.5, 0.0, 1.0),
            (0.0, 0.0, 0.0),
            (1.0, 0.0, 0.0),
            (1.0, 1.0, 0.0),
            (1.0, 1.0, 1.0)
        ]
    );
}

#[test]
fn palette_samples_blend_smoothly() {
    let palette = ColorPalette::Default.colors::<F32>();
    assert_eq!(rgb_of(sample_palette(F32(0.0), &palette)), (1.0, 0.5, 0.0));
    assert_eq!(rgb_of(sample_palette(F32(1.0), &palette)), (0.5, 0.0, 1.0));
    // halfway the blend is one half
    assert_eq!(rgb_of(sample_palette(F32(0.5), &palette)), (0.75, 0.25, 0.5));
    // a quarter of the way the blend is t*t*(3-2t) = 0.15625
    let t = 0.15625f32;
    let expected = (1.0 + (0.5 - 1.0) * t, 0.5 + (0.0 - 0.5) * t, 0.0 + (1.0 - 0.0) * t);
    assert_eq!(rgb_of(sample_palette(F32(0.25), &palette)), expected);
    // the last colour blends into the first
    assert_eq!(rgb_of(sample_palette(F32(5.5), &palette)), (1.0, 0.75, 0.0));
}

#[test]
fn palette_is_cyclic() {
    let palette = ColorPalette::Temperature.colors::<F32>();
    for k in 0..48 {
        let v = k as f32 * 0.125;
        let here = rgb_of(sample_palette(F32(v), &palette));
        assert_eq!(rgb_of(sample_palette(F32(v + 6.0), &palette)), here);
        assert_eq!(rgb_of(sample_palette(F32(v - 6.0), &palette)), here);
        assert_eq!(rgb_of(sample_palette(F32(v + 600.0), &palette)), here);
    }
}

#[test]
fn palette_takes_negative_values() {
    let palette = ColorPalette::Default.colors::<F32>();
    assert_eq!(
        rgb_of(sample_palette(F32(-0.5), &palette)),
        rgb_of(sample_palette(F32(5.5), &palette))
    );
    // a remainder that rounds up to the length wraps round to the start
    let edge = rgb_of(sample_palette(F32(-1.0e-10), &palette));
    assert_eq!(edge, (1.0, 0.5, 0.0));
}

#[test]
fn palette_of_any_length() {
    let two = [Vec3::new(F32(0.0), F32(0.0), F32(0.0)), Vec3::new(F32(1.0), F32(1.0), F32(1.0))];
    assert_eq!(rgb_of(sample_palette(F32(0.5), &two)), (0.5, 0.5, 0.5));
    assert_eq!(rgb_of(sample_palette(F32(1.5), &two)), (0.5, 0.5, 0.5));
    assert_eq!(rgb_of(sample_palette(F32(3.0), &two)), (1.0, 1.0, 1.0));
}

#[test]
fn inside_is_black() {
    let p = params(FractalKind::MandelbrotSet);
    assert_eq!(rgb_of(compute_fractal_color(c64(0.0, 0.0), p)), (0.0, 0.0, 0.0));
}

#[test]
fn normal_map_is_grey() {
    let mut p = params(FractalKind::MandelbrotSet);
    p.render_technique = RenderTechnique::NormalMap;
    let pos = c64(1.0, 0.5);
    let f = build_step(Func(Z), Func(C(pos)));
    let shade =
        escaped(compute_normal_map::<F64, _>(c64(0.0, 0.0), 1024, default_bailout_radius(), &f))
            .unwrap();
    let g = shade * 0.9 + 0.1;
    assert_eq!(rgb_of(compute_fractal_color(pos, p)), (g, g, g));
}

#[test]
fn escape_values_go_through_the_palette() {
    let mut p = params(FractalKind::MandelbrotSet);
    p.color_frequency = F32(2.5);
    p.color_palette = ColorPalette::Flames;
    let pos = c64(0.3, 0.6);
    let v = escaped(mandelbrot_value(pos, p)).unwrap();
    let expected =
        sample_palette(F32(v.ln() * 2.5), &ColorPalette::Flames.colors::<F32>());
    assert_eq!(rgb_of(compute_fractal_color(pos, p)), rgb_of(expected));
}

#[test]
fn every_family_is_reached() {
    let pos = c64(0.4, 0.7);
    for kind in [
        FractalKind::Multibrot3,
        FractalKind::Tricorn,
        FractalKind::BurningShip,
        FractalKind::CosLeaf,
    ] {
        let p = params(kind);
        let value = match kind {
            FractalKind::Multibrot3 => multibrot3(pos, p),
            FractalKind::Tricorn => tricorn(pos, p),
            FractalKind::BurningShip => burning_ship(pos, p),
            _ => cos_leaf(pos, p),
        };
        let expected = match escaped(value) {
            Some(v) => rgb_of(sample_palette(F32(v.ln()), &ColorPalette::Default.colors::<F32>())),
            None => (0.0, 0.0, 0.0),
        };
        assert_eq!(rgb_of(compute_fractal_color(pos, p)), expected);
    }
    let p = params(FractalKind::Newton3);
    assert_eq!(rgb_of(compute_fractal_color(pos, p)), rgb_of(newton3(pos, p)));
}

#[test]
fn lyapunov_colours_split_at_zero() {
    let mut p = params(FractalKind::Lyapunov);
    p.iteration_limit = 256;
    // a stable point: red and green, no blue
    let stable = v64(2.5, 2.5);
    let v = lyapunov::<F64, 2>(&[false, true], stable, 256).0;
    assert!(v < 0.0);
    let y = v.exp().sqrt();
    let expected = (y, 1.0 - (1.0 - y).powf(0.55), 0.0);
    assert_eq!(rgb_of(compute_fractal_color(Complex::from_vector(stable), p)), expected);
    // a chaotic point: blue alone
    let chaotic = v64(3.9, 3.9);
    let v = lyapunov::<F64, 2>(&[false, true], chaotic, 256).0;
    assert!(v > 0.0);
    let expected = (0.0, 1.0 - (1.0f32 - 0.0).powf(0.55), 1.0 - (-v).exp().powf(3.0));
    assert_eq!(rgb_of(compute_fractal_color(Complex::from_vector(chaotic), p)), expected);
    // outside the square the exponent is zero: black
    assert_eq!(rgb_of(compute_fractal_color(c64(5.0, 1.0), p)), (0.0, 0.0, 0.0));
}

#[test]
fn srgb_transfer_functions() {
    let c = Vec3::new(F32(0.0), F32(0.002), F32(0.5));
    let s = rgb_of(linear_to_srgb(c));
    assert_eq!(s.0, 0.0);
    assert_eq!(s.1, 0.002 * 12.92);
    assert_eq!(s.2, 1.055 * 0.5f32.powf(1.0 / 2.4) - 0.055);
    let l = rgb_of(srgb_to_linear(Vec3::new(F32(0.04), F32(0.5), F32(1.0))));
    assert_eq!(l.0, 0.04 / 12.92);
    assert_eq!(l.1, ((0.5f32 + 0.055) / 1.055).powf(2.4));
    assert!(close32(l.2, 1.0));
    let round = rgb_of(srgb_to_linear(linear_to_srgb(Vec3::new(F32(0.2), F32(0.4), F32(0.8)))));
    assert!(close32(round.0, 0.2) && close32(round.1, 0.4) && close32(round.2, 0.8));
}

// ------------------------------------------------------- tile computation

#[test]
fn colour_parts_become_bytes() {
    assert_eq!(color_to_byte(F32(0.0)), 0);
    assert_eq!(color_to_byte(F32(1.0)), 255);
    assert_eq!(color_to_byte(F32(0.5)), 127);
    assert_eq!(color_to_byte(F32(-3.0)), 0);
    assert_eq!(color_to_byte(F32(f32::NAN)), 0);
    assert_eq!(color_to_byte(F32(2.0)), 511);
}

#[test]
fn packed_colours_are_opaque() {
    assert_eq!(pack_color(0x12, 0x34, 0x56), 0xff12_3456);
    assert_eq!(pack_color(0, 0, 0), 0xff00_0000);
    assert_eq!(pack_color(255, 255, 255), 0xffff_ffff);
    assert_eq!(pack_color(511, 0, 0) >> 24, 0xff);
}

#[test]
fn default_region_is_the_square_of_side_four() {
    let p = Params::<F64>::default();
    assert_eq!((p.min_pos.x.0, p.min_pos.y.0), (-2.0, -2.0));
    assert_eq!((p.max_pos.x.0, p.max_pos.y.0), (2.0, 2.0));
    assert_eq!(p.fractal.iteration_limit, 1024);
}

#[test]
fn pixels_are_sampled_at_their_centre() {
    let mut p = Params::<F64>::default();
    p.min_pos = v64(-2.0, 2.0);
    p.max_pos = v64(2.0, -2.0);
    // the pixel (1, 2) of a 4 by 4 picture: uv = (0.375, 0.625)
    let colour = run_uv(v64(0.375, 0.625), p);
    let direct = compute_fractal_color(c64(-2.0 + 0.375 * 4.0, 2.0 - 0.625 * 4.0), p.fractal);
    assert_eq!(rgb_of(colour), rgb_of(direct));
    let word = run(UVec2 { x: 1, y: 2 }, UVec2 { x: 4, y: 4 }, p);
    let (r, g, b) = rgb_of(direct);
    assert_eq!(word, pack_color(color_to_byte(F32(r)), color_to_byte(F32(g)), color_to_byte(F32(b))));
    assert_eq!(word >> 24, 0xff);
}

#[test]
fn rows_are_aligned_to_sixty_four_pixels() {
    for &(width, aligned) in [(0, 0), (1, 64), (32, 64), (64, 64), (65, 128), (256, 256), (1000, 1024)].iter() {
        assert_eq!(ThreadedCompute::new(UVec2 { x: width, y: 32 }).aligned_width, aligned);
    }
    let wide = ThreadedCompute::new(UVec2 { x: u32::MAX - 64, y: 1 });
    assert_eq!(wide.aligned_width, u32::MAX - 63);
    assert_eq!(wide.texture_size, UVec2 { x: u32::MAX - 64, y: 1 });
    let widest = ThreadedCompute::new(UVec2 { x: u32::MAX - 63, y: 1 });
    assert_eq!(widest.aligned_width, u32::MAX - 63);
}

#[test]
fn a_tile_is_computed_row_by_row_and_padding_is_left_alone() {
    let compute = ThreadedCompute::new(UVec2 { x: 3, y: 2 });
    let mut p = Params::<F64>::default();
    p.min_pos = v64(-2.0, 1.0);
    p.max_pos = v64(1.0, -1.0);
    let mut data = vec![0x1234_5678u32; 64 * 2 + 5];
    compute.do_compute(&mut data, p);
    for y in 0..2u32 {
        for x in 0..64u32 {
            let word = data[(x + y * 64) as usize];
            if x < 3 {
                assert_eq!(word, run(UVec2 { x, y }, UVec2 { x: 3, y: 2 }, p));
            } else {
                assert_eq!(word, 0x1234_5678);
            }
        }
    }
    for k in 128..133 {
        assert_eq!(data[k], 0x1234_5678);
    }
    // the set shows: its middle is black, the far corner is not
    assert_eq!(data[1 + 64] & 0x00ff_ffff, 0);
    assert!(data[0] & 0x00ff_ffff != 0);
}

#[test]
fn an_empty_tile_computes_nothing() {
    let compute = ThreadedCompute::new(UVec2 { x: 0, y: 4 });
    let mut data = vec![7u32; 3];
    compute.do_compute(&mut data, Params::<F64>::default());
    assert_eq!(data, vec![7, 7, 7]);
}

#[test]
fn widened_parameters_narrow_back_to_themselves() {
    let mut narrow = Params::<F32>::default();
    narrow.min_pos = Vec2::new(F32(0.1), F32(-0.7));
    narrow.max_pos = Vec2::new(F32(1.0e-30), F32(3.3e30));
    narrow.fractal.secondary_pos = c32(0.123_456_79, -9.876_543);
    narrow.fractal.fractal_kind = FractalKind::Tricorn;
    narrow.fractal.variation = FractalVariation::JuliaSet;
    narrow.fractal.render_technique = RenderTechnique::OrbitTrapCross;
    narrow.fractal.iteration_limit = 77;
    narrow.fractal.color_palette = ColorPalette::Temperature;
    narrow.fractal.color_frequency = F32(0.3);
    let wide = Params::<F64>::widen(narrow);
    assert_eq!(wide.min_pos.x.0, 0.1f32 as f64);
    let back = wide.narrow();
    assert_eq!(back.min_pos.x.0.to_bits(), narrow.min_pos.x.0.to_bits());
    assert_eq!(back.min_pos.y.0.to_bits(), narrow.min_pos.y.0.to_bits());
    assert_eq!(back.max_pos.x.0.to_bits(), narrow.max_pos.x.0.to_bits());
    assert_eq!(back.max_pos.y.0.to_bits(), narrow.max_pos.y.0.to_bits());
    assert_eq!(
        back.fractal.secondary_pos.re.0.to_bits(),
        narrow.fractal.secondary_pos.re.0.to_bits()
    );
    assert_eq!(
        back.fractal.secondary_pos.im.0.to_bits(),
        narrow.fractal.secondary_pos.im.0.to_bits()
    );
    assert_eq!(back.fractal.fractal_kind, FractalKind::Tricorn);
    assert_eq!(back.fractal.variation, FractalVariation::JuliaSet);
    assert_eq!(back.fractal.render_technique, RenderTechnique::OrbitTrapCross);
    assert_eq!(back.fractal.iteration_limit, 77);
    assert_eq!(back.fractal.color_palette, ColorPalette::Temperature);
    assert_eq!(back.fractal.color_frequency.0.to_bits(), 0.3f32.to_bits());
}

#[test]
fn narrowing_is_within_one_step_of_single_precision() {
    let mut wide = Params::<F64>::default();
    wide.min_pos = v64(0.1, 1.0 / 3.0);
    wide.fractal.secondary_pos = c64(std::f64::consts::PI, -std::f64::consts::E);
    let narrow = wide.narrow();
    let again = Params::<F64>::widen(narrow);
    for (a, b) in [
        (wide.min_pos.x.0, again.min_pos.x.0),
        (wide.min_pos.y.0, again.min_pos.y.0),
        (wide.fractal.secondary_pos.re.0, again.fractal.secondary_pos.re.0),
        (wide.fractal.secondary_pos.im.0, again.fractal.secondary_pos.im.0),
    ] {
        let ulp = (f32::EPSILON as f64) * a.abs();
        assert!((a - b).abs() <= ulp);
    }
    assert!(wide.min_pos.x.0 != again.min_pos.x.0);
}

#[test]
fn renderer_structures_convert_between_precisions() {
    let u = Uniforms::<F64>::default();
    assert_eq!((u.camera_pos.x.0, u.camera_pos.y.0), (0.0, 0.0));
    assert_eq!((u.world_to_view_scale.x.0, u.world_to_view_scale.y.0), (1.0, 1.0));
    let i = Instance::<F64>::default();
    assert_eq!((i.pos.x.0, i.pos.y.0), (0.0, 0.0));
    assert_eq!((i.size.x.0, i.size.y.0), (1.0, 1.0));
    let u = Uniforms { camera_pos: v64(0.1, 0.2), world_to_view_scale: v64(3.0, 4.0) };
    let n = u.narrow();
    assert_eq!((n.camera_pos.x.0, n.camera_pos.y.0), (0.1f64 as f32, 0.2f64 as f32));
    let w = Uniforms::<F64>::widen(n);
    assert_eq!(w.narrow().camera_pos.x.0.to_bits(), n.camera_pos.x.0.to_bits());
    let i = Instance { pos: v64(1.5, 2.5), size: v64(0.3, 0.3) };
    let n = i.narrow();
    assert_eq!((n.pos.x.0, n.size.x.0), (1.5, 0.3f64 as f32));
    let w = Instance::<F64>::widen(n);
    assert_eq!(w.narrow().size.y.0.to_bits(), n.size.y.0.to_bits());
}

// ---------------------------------------------------------- viewer state

type Viewer = AppData<F64, u32>;

fn viewer() -> Viewer {
    Viewer::new(UVec2 { x: 256, y: 256 }, UVec2 { x: 800, y: 600 })
}

fn tile(x: i64, y: i64, exponent: i32) -> QuadPos {
    QuadPos { unscaled_pos: I64Vec2 { x, y }, exponent }
}

#[test]
fn a_new_viewer_is_at_rest() {
    let v = Viewer::new(UVec2 { x: 300, y: 256 }, UVec2 { x: 800, y: 600 });
    assert_eq!(v.cell_size, 256);
    assert_eq!(v.screen_size, UVec2 { x: 800, y: 600 });
    assert_eq!(v.cells.len(), 0);
    assert_eq!((v.pos.x.0, v.pos.y.0), (0.0, 0.0));
    assert_eq!(v.zoom.0, 1.0);
    assert_eq!(v.secondary_zoom.0, 1.0);
    assert_eq!(v.fractal_params.fractal_kind, FractalKind::MandelbrotSet);
    assert_eq!(v.fractal_params.iteration_limit, 1024);
    assert!(v.prev_mouse_pos.is_none());
    assert!(v.prev_touch_pos[0].is_none() && v.prev_touch_pos[1].is_none());
    assert!(!v.require_redraw);
}

#[test]
fn a_screen_has_no_side_of_zero() {
    let mut v = Viewer::new(UVec2 { x: 256, y: 256 }, UVec2 { x: 0, y: 0 });
    assert_eq!(v.screen_size, UVec2 { x: 1, y: 1 });
    v.resize(UVec2 { x: 640, y: 0 });
    assert_eq!(v.screen_size, UVec2 { x: 640, y: 1 });
    v.resize(UVec2 { x: 1024, y: 768 });
    assert_eq!(v.screen_size, UVec2 { x: 1024, y: 768 });
}

#[test]
fn pixel_and_viewport_sizes() {
    let mut v = viewer();
    assert_eq!(v.base_pixel_world_size().0, 4.0 / 600.0);
    v.set_zoom(F64(0.5));
    assert_eq!(v.pixel_world_size().0, 4.0 / 600.0 * 0.5);
    let size = v.viewport_world_size();
    assert_eq!((size.x.0, size.y.0), (800.0 * (4.0 / 600.0 * 0.5), 600.0 * (4.0 / 600.0 * 0.5)));
}

#[test]
fn exponent_range_follows_the_zoom() {
    let mut v = viewer();
    // a tile is 256 * 4/600 = 1.7 wide: exponent 0; the zoom of 1 gives 1
    assert_eq!(v.exponent_range(), (0, 1));
    v.set_zoom(F64(0.25));
    // a tile is 0.43 wide: exponent -2; ceil(log2(0.25)) + 1 = -1
    assert_eq!(v.exponent_range(), (-2, -1));
    v.set_zoom(F64(3.0));
    // a tile is 5.12 wide: exponent 2; ceil(log2(3)) + 1 = 3
    assert_eq!(v.exponent_range(), (2, 3));
    // the coarsest is never below the finest
    let mut w = Viewer::new(UVec2 { x: 4096, y: 4096 }, UVec2 { x: 16, y: 16 });
    w.set_zoom(F64(1.0));
    // a tile is 4096 * 4/16 = 1024 wide: exponent 10, above ceil(log2(1)) + 1
    assert_eq!(w.exponent_range(), (10, 10));
}

#[test]
fn visible_tiles_run_from_coarse_to_fine_and_from_near_to_far() {
    let v = viewer();
    let cells = v.visible_cells();
    // exponent 1: columns -2..2 and rows -1..1; exponent 0: columns -3..3
    // and rows -2..2
    assert_eq!(cells.len(), 8 + 24);
    let coarse: Vec<(i64, i64, i32)> =
        cells[..8].iter().map(|q| (q.unscaled_pos.x, q.unscaled_pos.y, q.exponent)).collect();
    assert_eq!(
        coarse,
        vec![
            (-1, -1, 1),
            (-1, 0, 1),
            (0, -1, 1),
            (0, 0, 1),
            (-2, -1, 1),
            (-2, 0, 1),
            (1, -1, 1),
            (1, 0, 1)
        ]
    );
    assert!(cells[8..].iter().all(|q| q.exponent == 0));
    let camera = v.pos;
    for layer in [&cells[..8], &cells[8..]] {
        for pair in layer.windows(2) {
            let a = camera.sub(pair[0].cell_center::<F64>()).length_squared().0;
            let b = camera.sub(pair[1].cell_center::<F64>()).length_squared().0;
            assert!(a <= b);
        }
    }
    let mut fine: Vec<(i64, i64)> =
        cells[8..].iter().map(|q| (q.unscaled_pos.x, q.unscaled_pos.y)).collect();
    fine.sort();
    let mut all = Vec::new();
    for x in -3..3 {
        for y in -2..2 {
            all.push((x, y));
        }
    }
    assert_eq!(fine, all);
    let layer = v.visible_layer(1);
    assert_eq!(layer, cells[..8].to_vec());
}

#[test]
fn visible_tiles_follow_the_camera() {
    let mut v = viewer();
    v.set_position(v64(10.0, -3.0));
    let cells = v.visible_cells();
    assert_eq!(cells[0], tile(4, -2, 1));
    for q in cells.iter() {
        let low = q.cell_bottom_left::<F64>();
        let high = q.cell_top_right::<F64>();
        assert!(high.x.0 > 10.0 - 8.0 / 3.0 - 1.0e-9 && low.x.0 < 10.0 + 8.0 / 3.0 + 1.0e-9);
        assert!(high.y.0 > -3.0 - 2.0 - 1.0e-9 && low.y.0 < -3.0 + 2.0 + 1.0e-9);
    }
}

#[test]
fn tiles_are_loaded_one_at_a_time_in_order() {
    let mut v = viewer();
    let visible = v.visible_cells();
    for (k, q) in visible.iter().enumerate() {
        assert_eq!(v.next_cell_to_load(), Some(*q));
        assert!(!v.is_cell_loaded(*q));
        v.make_cell(*q, k as u32);
        assert!(v.is_cell_loaded(*q));
        assert_eq!(v.cells.len(), k + 1);
    }
    assert_eq!(v.next_cell_to_load(), None);
}

#[test]
fn the_first_missing_tile_is_loaded_first() {
    let mut v = viewer();
    let visible = v.visible_cells();
    v.make_cell(visible[0], 0);
    v.make_cell(visible[1], 1);
    v.make_cell(visible[3], 3);
    assert_eq!(v.next_cell_to_load(), Some(visible[2]));
}

#[test]
fn making_a_tile_asks_for_a_redraw_and_replaces() {
    let mut v = viewer();
    let q = tile(0, 0, 0);
    v.make_cell(q, 1);
    assert!(v.require_redraw);
    v.make_cell(q, 2);
    assert_eq!(v.cells.len(), 1);
    assert_eq!(v.cells.get(&q), Some(&2));
}

#[test]
fn changing_the_family_invalidates_every_tile() {
    let mut v = viewer();
    for (k, q) in v.visible_cells().iter().enumerate() {
        v.make_cell(*q, k as u32);
    }
    v.require_redraw = false;
    assert_eq!(v.next_cell_to_load(), None);
    v.set_fractal_kind(FractalKind::Newton3);
    assert_eq!(v.fractal_params.fractal_kind, FractalKind::Newton3);
    assert_eq!(v.fractal_params.iteration_limit, 128);
    assert_eq!(v.cells.len(), 0);
    assert!(v.require_redraw);
    let visible = v.visible_cells();
    assert!(!visible.is_empty());
    assert!(visible.iter().all(|q| !v.is_cell_loaded(*q)));
    assert_eq!(v.next_cell_to_load(), Some(visible[0]));
}

#[test]
fn setting_the_family_in_place_changes_nothing() {
    let mut v = viewer();
    v.make_cell(tile(0, 0, 0), 9);
    v.set_iteration_limit(50);
    v.make_cell(tile(0, 0, 0), 9);
    v.require_redraw = false;
    v.set_fractal_kind(FractalKind::MandelbrotSet);
    assert_eq!(v.cells.len(), 1);
    assert_eq!(v.fractal_params.iteration_limit, 50);
    assert!(!v.require_redraw);
    v.set_fractal_variation(FractalVariation::Normal);
    v.set_fractal_rendering(RenderTechnique::Normal);
    assert_eq!(v.cells.len(), 1);
    assert!(!v.require_redraw);
}

#[test]
fn variation_and_technique_invalidate_too() {
    let mut v = viewer();
    v.make_cell(tile(0, 0, 0), 9);
    v.set_fractal_variation(FractalVariation::JuliaSet);
    assert_eq!(v.cells.len(), 0);
    assert_eq!(v.fractal_params.variation, FractalVariation::JuliaSet);
    v.make_cell(tile(0, 0, 0), 9);
    v.set_fractal_rendering(RenderTechnique::NormalMap);
    assert_eq!(v.cells.len(), 0);
    assert_eq!(v.fractal_params.render_technique, RenderTechnique::NormalMap);
    v.make_cell(tile(0, 0, 0), 9);
    v.set_secondary_pos(c64(0.5, 0.5));
    assert_eq!(v.cells.len(), 0);
    v.make_cell(tile(0, 0, 0), 9);
    v.set_iteration_limit(10);
    assert_eq!(v.cells.len(), 0);
    assert_eq!(v.fractal_params.iteration_limit, 10);
    v.make_cell(tile(0, 0, 0), 9);
    v.reset_fractal_rendering();
    assert_eq!(v.cells.len(), 0);
}

#[test]
fn moving_the_view_keeps_the_tiles() {
    let mut v = viewer();
    v.make_cell(tile(0, 0, 0), 9);
    v.set_position(v64(0.5, 0.5));
    v.set_zoom(F64(0.9));
    v.apply_zoom(F64(0.1), None);
    v.drag_view(v64(10.0, 10.0), v64(20.0, 15.0));
    assert_eq!(v.cells.len(), 1);
}

#[test]
fn far_tiles_are_dropped() {
    let mut v = viewer();
    // exponents from -4 to 5 are kept around the range (0, 1)
    v.make_cell(tile(0, 0, 5), 1);
    v.make_cell(tile(0, 0, 6), 2);
    v.make_cell(tile(0, 0, -4), 3);
    v.make_cell(tile(0, 0, -5), 4);
    // the window reaches two viewports from the camera: 10.67 by 8
    v.make_cell(tile(10, 0, 0), 5);
    v.make_cell(tile(11, 0, 0), 6);
    v.make_cell(tile(-11, 0, 0), 7);
    v.make_cell(tile(-12, 0, 0), 8);
    v.make_cell(tile(0, 7, 0), 9);
    v.make_cell(tile(0, 8, 0), 10);
    v.make_cell(tile(0, -8, 0), 11);
    v.make_cell(tile(0, -9, 0), 12);
    v.cleanup_cells();
    let kept: Vec<u32> = (0..v.cells.len()).map(|i| *v.cells.value_at(i)).collect();
    let mut sorted = kept.clone();
    sorted.sort();
    assert_eq!(sorted, vec![1, 3, 5, 7, 9, 11]);
    assert!(v.is_cell_loaded(tile(0, 0, 5)));
    assert!(!v.is_cell_loaded(tile(0, 0, 6)));
    assert_eq!(v.cells.get(&tile(10, 0, 0)), Some(&5));
}

#[test]
fn a_frame_evicts_before_it_loads() {
    let mut v = viewer();
    let visible = v.visible_cells();
    for (k, q) in visible.iter().enumerate() {
        v.make_cell(*q, k as u32);
    }
    v.make_cell(tile(0, 0, 9), 99);
    assert_eq!(v.begin_frame(), None);
    assert!(!v.require_redraw);
    assert!(!v.is_cell_loaded(tile(0, 0, 9)));
    assert_eq!(v.cells.len(), visible.len());
    // after a jump of the camera the old tiles go and one new tile is due
    v.set_position(v64(100.0, 100.0));
    let next = v.begin_frame();
    assert_eq!(v.cells.len(), 0);
    assert_eq!(next, Some(v.visible_cells()[0]));
}

#[test]
fn reset_goes_back_to_rest() {
    let mut v = viewer();
    v.set_fractal_kind(FractalKind::Newton3);
    v.set_iteration_limit(5);
    v.set_position(v64(3.0, 4.0));
    v.set_zoom(F64(0.01));
    v.secondary_zoom = F64(7.0);
    v.set_secondary_pos(c64(1.0, 1.0));
    v.make_cell(tile(0, 0, 0), 1);
    v.reset();
    assert_eq!(v.cells.len(), 0);
    assert_eq!((v.pos.x.0, v.pos.y.0), (0.0, 0.0));
    assert_eq!(v.zoom.0, 1.0);
    assert_eq!((v.fractal_params.secondary_pos.re.0, v.fractal_params.secondary_pos.im.0), (0.0, 0.0));
    assert_eq!(v.fractal_params.fractal_kind, FractalKind::Newton3);
    assert_eq!(v.fractal_params.iteration_limit, 128);
    assert_eq!(v.secondary_zoom.0, 7.0);
}

#[test]
fn zoom_steps_are_exponential() {
    let mut v = viewer();
    v.apply_zoom(F64(2.0), None);
    assert_eq!(v.zoom.0, (-1.0f64).exp());
    assert_eq!((v.pos.x.0, v.pos.y.0), (0.0, 0.0));
    assert!(v.require_redraw);
    v.apply_zoom(F64(-2.0), None);
    assert!(close(v.zoom.0, 1.0));
}

#[test]
fn zoom_about_a_point_keeps_the_point_in_place() {
    let mut v = viewer();
    let centre = v64(600.0, 150.0);
    let before_x = v.pos.x.0 + (600.0 - 400.0) * v.pixel_world_size().0;
    let before_y = v.pos.y.0 + (300.0 - 150.0) * v.pixel_world_size().0;
    v.apply_zoom(F64(1.0), Some(centre));
    let zoom = (-0.5f64).exp();
    assert_eq!(v.zoom.0, zoom);
    let base = 4.0 / 600.0;
    assert_eq!(v.pos.x.0, 0.0 + (600.0 - 800.0 * 0.5) * base * (1.0 - zoom));
    assert_eq!(v.pos.y.0, 0.0 + (600.0 * 0.5 - 150.0) * base * (1.0 - zoom));
    let after_x = v.pos.x.0 + (600.0 - 400.0) * v.pixel_world_size().0;
    let after_y = v.pos.y.0 + (300.0 - 150.0) * v.pixel_world_size().0;
    assert!(close(before_x, after_x) && close(before_y, after_y));
}

#[test]
fn toggling_the_variation_swaps_the_two_views() {
    let mut v = viewer();
    v.set_position(v64(0.3, -0.4));
    v.set_zoom(F64(0.5));
    v.set_secondary_pos(c64(-0.8, 0.2));
    v.secondary_zoom = F64(2.0);
    v.make_cell(tile(0, 0, 0), 1);
    v.toggle_variation();
    assert_eq!(v.fractal_params.variation, FractalVariation::JuliaSet);
    assert_eq!((v.pos.x.0, v.pos.y.0), (-0.8, 0.2));
    assert_eq!((v.fractal_params.secondary_pos.re.0, v.fractal_params.secondary_pos.im.0), (0.3, -0.4));
    assert_eq!(v.zoom.0, 2.0);
    assert_eq!(v.secondary_zoom.0, 0.5);
    assert_eq!(v.cells.len(), 0);
    v.toggle_variation();
    assert_eq!(v.fractal_params.variation, FractalVariation::Normal);
    assert_eq!((v.pos.x.0, v.pos.y.0), (0.3, -0.4));
    assert_eq!(v.zoom.0, 0.5);
}

#[test]
fn techniques_come_round_in_a_cycle() {
    let mut v = viewer();
    let mut seen = Vec::new();
    for _ in 0..5 {
        v.make_cell(tile(0, 0, 0), 1);
        v.cycle_render_technique();
        assert_eq!(v.cells.len(), 0);
        seen.push(v.fractal_params.render_technique);
    }
    assert_eq!(
        seen,
        vec![
            RenderTechnique::OrbitTrapPoint,
            RenderTechnique::OrbitTrapCross,
            RenderTechnique::NormalMap,
            RenderTechnique::Normal,
            RenderTechnique::OrbitTrapPoint
        ]
    );
}

#[test]
fn dragging_moves_the_picture_with_the_pointer() {
    let mut v = viewer();
    let pixel = 4.0 / 600.0;
    v.drag_view(v64(100.0, 100.0), v64(130.0, 90.0));
    assert_eq!(v.pos.x.0, 0.0 - (130.0 - 100.0) * pixel);
    assert_eq!(v.pos.y.0, 0.0 - (100.0 - 90.0) * pixel);
    v.make_cell(tile(0, 0, 0), 1);
    v.drag_secondary(v64(100.0, 100.0), v64(130.0, 90.0));
    assert_eq!(v.fractal_params.secondary_pos.re.0, 0.0 - (130.0 - 100.0) * pixel);
    assert_eq!(v.fractal_params.secondary_pos.im.0, 0.0 - (90.0 - 100.0) * pixel);
    assert_eq!(v.cells.len(), 0);
}

#[test]
fn the_pointer_drags_only_with_a_button_down() {
    let mut v = viewer();
    assert!(!v.cursor_moved(v64(10.0, 10.0), true, false));
    assert_eq!((v.pos.x.0, v.pos.y.0), (0.0, 0.0));
    assert!(!v.cursor_moved(v64(20.0, 10.0), false, false));
    assert_eq!((v.pos.x.0, v.pos.y.0), (0.0, 0.0));
    assert!(v.cursor_moved(v64(50.0, 10.0), true, true));
    assert_eq!(v.pos.x.0, -(30.0 * (4.0 / 600.0)));
    assert_eq!(v.fractal_params.secondary_pos.re.0, 0.0);
    assert!(v.cursor_moved(v64(60.0, 10.0), false, true));
    assert_eq!(v.fractal_params.secondary_pos.re.0, -(10.0 * (4.0 / 600.0)));
    let last = v.prev_mouse_pos.unwrap();
    assert_eq!((last.x.0, last.y.0), (60.0, 10.0));
}

fn touch_ids(v: &Viewer) -> (Option<u64>, Option<u64>) {
    (v.prev_touch_pos[0].map(|t| t.0), v.prev_touch_pos[1].map(|t| t.0))
}

#[test]
fn two_touches_are_followed() {
    let mut v = viewer();
    v.touch_started(7, v64(1.0, 1.0));
    assert_eq!(touch_ids(&v), (Some(7), None));
    v.touch_started(9, v64(2.0, 2.0));
    assert_eq!(touch_ids(&v), (Some(7), Some(9)));
    v.touch_started(11, v64(3.0, 3.0));
    assert_eq!(touch_ids(&v), (Some(7), Some(9)));
    v.touch_started(9, v64(5.0, 5.0));
    assert_eq!(v.prev_touch_pos[1].unwrap().1.x.0, 5.0);
    v.touch_ended(11);
    assert_eq!(touch_ids(&v), (Some(7), Some(9)));
    v.touch_ended(7);
    assert_eq!(touch_ids(&v), (Some(9), None));
    v.touch_started(3, v64(0.0, 0.0));
    assert_eq!(touch_ids(&v), (Some(9), Some(3)));
    v.touch_ended(3);
    assert_eq!(touch_ids(&v), (Some(9), None));
    v.touch_ended(9);
    assert_eq!(touch_ids(&v), (None, None));
    v.touch_ended(9);
    assert_eq!(touch_ids(&v), (None, None));
}

#[test]
fn one_finger_drags_and_two_fingers_pinch() {
    let mut v = viewer();
    assert!(!v.touch_moved(1, v64(5.0, 5.0)));
    v.touch_started(1, v64(100.0, 100.0));
    assert!(!v.touch_moved(2, v64(0.0, 0.0)));
    assert!(v.touch_moved(1, v64(110.0, 100.0)));
    assert_eq!(v.pos.x.0, -(10.0 * (4.0 / 600.0)));
    assert_eq!(v.prev_touch_pos[0].unwrap().1.x.0, 110.0);
    v.touch_started(2, v64(210.0, 100.0));
    v.require_redraw = false;
    let pos_before = v.pos.x.0;
    // the second finger moves away: the distance grows from 100 to 140
    assert!(!v.touch_moved(2, v64(250.0, 100.0)));
    assert!(v.require_redraw);
    let zoom = (-(40.0f64) * 0.5).exp();
    assert_eq!(v.zoom.0, zoom);
    let centre_x = (250.0 + 110.0) * 0.5;
    assert_eq!(v.pos.x.0, pos_before + (centre_x - 400.0) * (4.0 / 600.0) * (1.0 - zoom));
    assert_eq!(v.prev_touch_pos[1].unwrap().1.x.0, 250.0);
    // a finger that is not followed changes nothing
    let zoom_now = v.zoom.0;
    assert!(!v.touch_moved(5, v64(0.0, 0.0)));
    assert_eq!(v.zoom.0, zoom_now);
    // the first finger pinches too
    assert!(!v.touch_moved(1, v64(150.0, 100.0)));
    assert_eq!(v.zoom.0, zoom_now * (-(-40.0f64) * 0.5).exp());
    assert_eq!(v.prev_touch_pos[0].unwrap().1.x.0, 150.0);
}

#[test]
fn a_tile_knows_its_region_and_its_instance() {
    let mut v = viewer();
    v.set_iteration_limit(33);
    let q = tile(3, -2, -1);
    let p = v.cell_params(q);
    assert_eq!((p.min_pos.x.0, p.min_pos.y.0), (1.5, -0.5));
    assert_eq!((p.max_pos.x.0, p.max_pos.y.0), (2.0, -1.0));
    assert_eq!(p.fractal.iteration_limit, 33);
    let i = Viewer::cell_instance(q);
    assert_eq!((i.pos.x.0, i.pos.y.0), (1.5, -1.0));
    assert_eq!((i.size.x.0, i.size.y.0), (0.5, 0.5));
}

#[test]
fn tile_corners_in_floating_point() {
    let q = tile(-3, 5, 2);
    assert_eq!(q.cell_size::<F64>().0, 4.0);
    let low = q.cell_bottom_left::<F64>();
    let mid = q.cell_center::<F64>();
    let high = q.cell_top_right::<F64>();
    assert_eq!((low.x.0, low.y.0), (-12.0, 20.0));
    assert_eq!((mid.x.0, mid.y.0), (-10.0, 22.0));
    assert_eq!((high.x.0, high.y.0), (-8.0, 24.0));
    assert_eq!((high.x.0 - low.x.0, high.y.0 - low.y.0), (4.0, 4.0));
    for e in -30..30 {
        assert_eq!(tile(0, 0, e).cell_size::<F64>().0, 2.0f64.powi(e));
        assert_eq!(tile(0, 0, e).cell_size::<F32>().0, 2.0f32.powi(e));
    }
}

// ------------------------------------------------------- single precision

#[test]
fn the_engine_runs_in_single_precision() {
    let mut p = FractalParams::<F32>::default();
    p.iteration_limit = 200;
    let (cr, ci) = (0.3f32, 0.6f32);
    // reference run in f32
    let (mut zr, mut zi) = (0.0f32, 0.0f32);
    let (mut pr, mut pi) = (0.0f32, 0.0f32);
    let mut expected = None;
    for i in 1..=200u32 {
        let l = zr * zr + zi * zi;
        if l > 1.0e8 * 1.0e8 {
            let log_zn = l.ln() / 2.0;
            expected = Some((i as f32 + 1.0 - log_zn.ln() / 2.0f32.ln()).max(1.0));
            break;
        }
        let (nr, ni) = (zr * zr - zi * zi + cr, 2.0 * zr * zi + ci);
        zr = nr;
        zi = ni;
        if (zr - pr).abs() <= 1.0e-20 && (zi - pi).abs() <= 1.0e-20 {
            break;
        }
        if i % 32 == 7 {
            pr = zr;
            pi = zi;
        }
    }
    assert!(expected.is_some());
    assert_eq!(escaped(mandelbrot_value(c32(cr, ci), p)), expected);
    let colour = compute_fractal_color(c32(cr, ci), p);
    let direct = sample_palette(F32(expected.unwrap().ln()), &ColorPalette::Default.colors::<F32>());
    assert_eq!(rgb_of(colour), rgb_of(direct));
}

#[test]
fn both_precisions_agree_on_easy_points() {
    let p64 = params(FractalKind::MandelbrotSet);
    let p32 = p64.narrow();
    for &(re, im) in [(0.0, 0.0), (-1.0, 0.0), (0.25, 0.5), (2.0, 2.0), (-0.75, 0.25)].iter() {
        let wide = escaped(mandelbrot_value(c64(re, im), p64));
        let narrow = escaped(mandelbrot_value(c32(re as f32, im as f32), p32));
        assert_eq!(wide.is_some(), narrow.is_some());
        if let (Some(a), Some(b)) = (wide, narrow) {
            assert!(close32(a, b));
        }
    }
}

#[test]
fn a_viewer_in_single_precision() {
    let mut v = AppData::<F32, ()>::new(UVec2 { x: 256, y: 256 }, UVec2 { x: 800, y: 600 });
    assert_eq!(v.exponent_range(), (0, 1));
    let cells = v.visible_cells();
    assert_eq!(cells.len(), 32);
    assert_eq!(v.begin_frame(), Some(cells[0]));
    v.make_cell(cells[0], ());
    assert_eq!(v.begin_frame(), Some(cells[1]));
}

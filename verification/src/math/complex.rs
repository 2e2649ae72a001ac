//! Complex numbers over any real number type.
use super::function::{Constant, Func, IntoFunc};
use super::vector::Vec2;
use super::{Exp, Number, Real, Scalar, Trigo};
use vstd::prelude::*;

verus! {

/// The complex number `re + im * i`.
#[derive(Clone, Copy, Debug)]
pub struct Complex<S> {
    pub re: S,
    pub im: S,
}

impl<S: Real> Complex<S> {
    pub fn new(re: S, im: S) -> (z: Self)
        ensures
            z == (Complex { re, im }),
    {
        Complex { re, im }
    }

    pub fn from_cartesian(re: S, im: S) -> (z: Self)
        ensures
            z == (Complex { re, im }),
    {
        Complex { re, im }
    }

    pub open spec fn i_spec() -> Self {
        Complex { re: S::zero(), im: S::one() }
    }

    /// The imaginary unit.
    #[verifier::when_used_as_spec(i_spec)]
    pub fn i() -> (z: Self)
        ensures
            z == Self::i_spec(),
    {
        Complex { re: S::zero(), im: S::one() }
    }

    pub open spec fn from_polar_spec(modulus: S, argument: S) -> Self {
        Complex { re: argument.cos().mul(modulus), im: argument.sin().mul(modulus) }
    }

    /// The number at distance `modulus` from the origin, in the direction
    /// `argument`: `(cos(argument) * modulus, sin(argument) * modulus)`.
    #[verifier::when_used_as_spec(from_polar_spec)]
    pub fn from_polar(modulus: S, argument: S) -> (z: Self)
        ensures
            z == Self::from_polar_spec(modulus, argument),
    {
        Complex { re: argument.cos().mul(modulus), im: argument.sin().mul(modulus) }
    }

    pub fn from_vector(vec: Vec2<S>) -> (z: Self)
        ensures
            z == (Complex { re: vec.x, im: vec.y }),
    {
        Complex { re: vec.x, im: vec.y }
    }

    pub open spec fn to_vector_spec(self) -> Vec2<S> {
        Vec2 { x: self.re, y: self.im }
    }

    #[verifier::when_used_as_spec(to_vector_spec)]
    pub fn to_vector(self) -> (v: Vec2<S>)
        ensures
            v == self.to_vector_spec(),
    {
        Vec2 { x: self.re, y: self.im }
    }

    /// The real part.
    pub fn re(self) -> (r: S)
        ensures
            r == self.re,
    {
        self.re
    }

    /// The imaginary part.
    pub fn im(self) -> (r: S)
        ensures
            r == self.im,
    {
        self.im
    }

    pub open spec fn modulus_squared_spec(self) -> S {
        self.re.mul(self.re).add(self.im.mul(self.im))
    }

    /// The square of the distance from the origin, `re * re + im * im`.
    #[verifier::when_used_as_spec(modulus_squared_spec)]
    pub fn modulus_squared(self) -> (r: S)
        ensures
            r == self.modulus_squared_spec(),
    {
        self.re.mul(self.re).add(self.im.mul(self.im))
    }

    pub open spec fn modulus_spec(self) -> S {
        self.modulus_squared().sqrt()
    }

    /// The distance from the origin.
    #[verifier::when_used_as_spec(modulus_spec)]
    pub fn modulus(self) -> (r: S)
        ensures
            r == self.modulus_spec(),
    {
        self.modulus_squared().sqrt()
    }

    pub open spec fn argument_spec(self) -> S {
        self.im.atan2(self.re)
    }

    /// The direction seen from the origin, in radians.
    #[verifier::when_used_as_spec(argument_spec)]
    pub fn argument(self) -> (r: S)
        ensures
            r == self.argument_spec(),
    {
        self.im.atan2(self.re)
    }

    pub open spec fn conjugate_spec(self) -> Self {
        Complex { re: self.re, im: self.im.neg() }
    }

    #[verifier::when_used_as_spec(conjugate_spec)]
    pub fn conjugate(self) -> (z: Self)
        ensures
            z == self.conjugate_spec(),
    {
        Complex { re: self.re, im: self.im.neg() }
    }

    pub open spec fn scale_spec(self, k: S) -> Self {
        Complex { re: self.re.mul(k), im: self.im.mul(k) }
    }

    /// The product with a real number.
    #[verifier::when_used_as_spec(scale_spec)]
    pub fn scale(self, k: S) -> (z: Self)
        ensures
            z == self.scale_spec(k),
    {
        Complex { re: self.re.mul(k), im: self.im.mul(k) }
    }

    pub open spec fn unscale_spec(self, k: S) -> Self {
        Complex { re: self.re.div(k), im: self.im.div(k) }
    }

    /// The quotient by a real number.
    #[verifier::when_used_as_spec(unscale_spec)]
    pub fn unscale(self, k: S) -> (z: Self)
        ensures
            z == self.unscale_spec(k),
    {
        Complex { re: self.re.div(k), im: self.im.div(k) }
    }

    pub open spec fn fuzzy_eq_spec(self, rhs: Self, max_abs_diff: S) -> bool {
        self.re.sub(rhs.re).abs().le(max_abs_diff) && self.im.sub(rhs.im).abs().le(max_abs_diff)
    }

    /// Whether both parts of `self` and `rhs` differ by at most
    /// `max_abs_diff`.
    #[verifier::when_used_as_spec(fuzzy_eq_spec)]
    pub fn fuzzy_eq(self, rhs: Self, max_abs_diff: S) -> (b: bool)
        ensures
            b == self.fuzzy_eq_spec(rhs, max_abs_diff),
    {
        let dr = self.re.sub(rhs.re).abs();
        let di = self.im.sub(rhs.im).abs();
        dr.le(max_abs_diff) && di.le(max_abs_diff)
    }

    /// The reciprocal of a real number, held to ten to the tenth.
    pub open spec fn saturating_inv_spec(d: S) -> S {
        d.inv().min(S::from_decimal(1, 10))
    }

    /// The reciprocal of `d`, or ten to the tenth where the reciprocal is
    /// larger: a large but finite stand-in for a division by zero.
    #[verifier::when_used_as_spec(saturating_inv_spec)]
    pub fn saturating_inv(d: S) -> (r: S)
        ensures
            r == Self::saturating_inv_spec(d),
    {
        d.inv().min(S::from_decimal(1, 10))
    }

    pub open spec fn div_saturating_spec(self, rhs: Self) -> Self {
        if rhs.modulus_squared().is_zero() {
            self.scale(S::from_decimal(1, 10))
        } else {
            self.div(rhs)
        }
    }

    /// The quotient `self / rhs`, except that a divisor of modulus zero
    /// gives `self` scaled by ten to the tenth in place of a fault.
    #[verifier::when_used_as_spec(div_saturating_spec)]
    pub fn div_saturating(self, rhs: Self) -> (z: Self)
        ensures
            z == self.div_saturating_spec(rhs),
    {
        if rhs.modulus_squared().is_zero() {
            self.scale(S::from_decimal(1, 10))
        } else {
            self.div(rhs)
        }
    }

    pub open spec fn normalize_spec(self) -> Self {
        let m = self.modulus();
        if m.is_zero() {
            self.scale(S::from_decimal(1, 10))
        } else {
            self.unscale(m)
        }
    }

    /// `self` divided by its modulus, except that a modulus of zero gives
    /// `self` scaled by ten to the tenth in place of a fault.
    #[verifier::when_used_as_spec(normalize_spec)]
    pub fn normalize(self) -> (z: Self)
        ensures
            z == self.normalize_spec(),
    {
        let m = self.modulus();
        if m.is_zero() {
            self.scale(S::from_decimal(1, 10))
        } else {
            self.unscale(m)
        }
    }
}

impl<S: Scalar> Complex<S> {
    pub open spec fn to_single_spec(self) -> Complex<S::Single> {
        Complex { re: self.re.to_single(), im: self.im.to_single() }
    }

    /// Narrows both parts to single precision.
    #[verifier::when_used_as_spec(to_single_spec)]
    pub fn to_single(self) -> (z: Complex<S::Single>)
        ensures
            z == self.to_single_spec(),
    {
        Complex { re: self.re.to_single(), im: self.im.to_single() }
    }

    pub open spec fn from_single_spec(value: Complex<S::Single>) -> Self {
        Complex { re: S::from_single(value.re), im: S::from_single(value.im) }
    }

    /// Widens both parts from single precision.
    #[verifier::when_used_as_spec(from_single_spec)]
    pub fn from_single(value: Complex<S::Single>) -> (z: Self)
        ensures
            z == Self::from_single_spec(value),
    {
        Complex { re: S::from_single(value.re), im: S::from_single(value.im) }
    }

    /// Widening a complex number and narrowing it again gives it back.
    pub proof fn widen_is_exact(value: Complex<S::Single>)
        ensures
            Self::from_single_spec(value).to_single_spec() == value,
    {
        S::widen_is_exact(value.re);
        S::widen_is_exact(value.im);
    }
}

impl<S: Real> Number for Complex<S> {
    open spec fn zero_spec() -> Self {
        Complex { re: S::zero(), im: S::zero() }
    }

    fn zero() -> (r: Self) {
        Complex { re: S::zero(), im: S::zero() }
    }

    open spec fn one_spec() -> Self {
        Complex { re: S::one(), im: S::zero() }
    }

    fn one() -> (r: Self) {
        Complex { re: S::one(), im: S::zero() }
    }

    /// The real number of that value, with no imaginary part.
    open spec fn from_decimal_spec(mantissa: i32, exponent: i32) -> Self {
        Complex { re: S::from_decimal(mantissa, exponent), im: S::zero() }
    }

    fn from_decimal(mantissa: i32, exponent: i32) -> (r: Self) {
        Complex { re: S::from_decimal(mantissa, exponent), im: S::zero() }
    }

    open spec fn add_spec(self, rhs: Self) -> Self {
        Complex { re: self.re.add(rhs.re), im: self.im.add(rhs.im) }
    }

    fn add(self, rhs: Self) -> (r: Self) {
        Complex { re: self.re.add(rhs.re), im: self.im.add(rhs.im) }
    }

    open spec fn sub_spec(self, rhs: Self) -> Self {
        Complex { re: self.re.sub(rhs.re), im: self.im.sub(rhs.im) }
    }

    fn sub(self, rhs: Self) -> (r: Self) {
        Complex { re: self.re.sub(rhs.re), im: self.im.sub(rhs.im) }
    }

    /// `(a + bi)(c + di) = (ac - bd) + (ad + bc)i`.
    open spec fn mul_spec(self, rhs: Self) -> Self {
        Complex {
            re: self.re.mul(rhs.re).sub(self.im.mul(rhs.im)),
            im: self.re.mul(rhs.im).add(self.im.mul(rhs.re)),
        }
    }

    fn mul(self, rhs: Self) -> (r: Self) {
        Complex {
            re: self.re.mul(rhs.re).sub(self.im.mul(rhs.im)),
            im: self.re.mul(rhs.im).add(self.im.mul(rhs.re)),
        }
    }

    /// `self` times the conjugate of `rhs`, over the squared modulus of
    /// `rhs`. A divisor of modulus zero is not guarded against here.
    open spec fn div_spec(self, rhs: Self) -> Self {
        self.mul(rhs.conjugate()).unscale(rhs.modulus_squared())
    }

    fn div(self, rhs: Self) -> (r: Self) {
        self.mul(rhs.conjugate()).unscale(rhs.modulus_squared())
    }

    open spec fn neg_spec(self) -> Self {
        Complex { re: self.re.neg(), im: self.im.neg() }
    }

    fn neg(self) -> (r: Self) {
        Complex { re: self.re.neg(), im: self.im.neg() }
    }

    /// The conjugate over the squared modulus.
    open spec fn inv_spec(self) -> Self {
        self.conjugate().unscale(self.modulus_squared())
    }

    fn inv(self) -> (r: Self) {
        self.conjugate().unscale(self.modulus_squared())
    }
}

impl<S: Real> Exp for Complex<S> {
    /// `(re * re - im * im, 2 * re * im)`.
    open spec fn squared_spec(self) -> Self {
        Complex {
            re: self.re.mul(self.re).sub(self.im.mul(self.im)),
            im: S::from_decimal(2, 0).mul(self.re).mul(self.im),
        }
    }

    fn squared(self) -> (r: Self) {
        Complex {
            re: self.re.mul(self.re).sub(self.im.mul(self.im)),
            im: S::from_decimal(2, 0).mul(self.re).mul(self.im),
        }
    }

    /// With `m` the modulus: `((m + re) / 2, s * (m - re) / 2)`, where `s`
    /// is minus one for a negative imaginary part and one otherwise.
    open spec fn sqrt_spec(self) -> Self {
        let m = self.modulus();
        let sgn = if self.im.lt(S::zero()) {
            S::one().neg()
        } else {
            S::one()
        };
        let two = S::from_decimal(2, 0);
        Complex { re: m.add(self.re).div(two), im: sgn.mul(m.sub(self.re)).div(two) }
    }

    fn sqrt(self) -> (r: Self) {
        let m = self.modulus();
        let sgn = if self.im.lt(S::zero()) {
            S::one().neg()
        } else {
            S::one()
        };
        let two = S::from_decimal(2, 0);
        Complex { re: m.add(self.re).div(two), im: sgn.mul(m.sub(self.re)).div(two) }
    }

    /// The number of modulus `exp(re)` and argument `im`.
    open spec fn exp_spec(self) -> Self {
        Self::from_polar(self.re.exp(), self.im)
    }

    fn exp(self) -> (r: Self) {
        Self::from_polar(self.re.exp(), self.im)
    }

    /// `exp(exp * ln(self))`.
    open spec fn pow_spec(self, exp: Self) -> Self {
        exp.mul(self.ln()).exp()
    }

    fn pow(self, exp: Self) -> (r: Self) {
        exp.mul(self.ln()).exp()
    }

    /// `(ln(modulus), argument)`: the principal branch.
    open spec fn ln_spec(self) -> Self {
        Complex { re: self.modulus().ln(), im: self.argument() }
    }

    fn ln(self) -> (r: Self) {
        Complex { re: self.modulus().ln(), im: self.argument() }
    }

    open spec fn log_spec(self, base: Self) -> Self {
        self.ln().div(base.ln())
    }

    fn log(self, base: Self) -> (r: Self) {
        self.ln().div(base.ln())
    }
}

impl<S: Real> Trigo for Complex<S> {
    /// `(sin(re) * cosh(im), cos(re) * sinh(im))`.
    open spec fn sin_spec(self) -> Self {
        Complex {
            re: self.re.sin().mul(self.im.cosh()),
            im: self.re.cos().mul(self.im.sinh()),
        }
    }

    fn sin(self) -> (r: Self) {
        Complex {
            re: self.re.sin().mul(self.im.cosh()),
            im: self.re.cos().mul(self.im.sinh()),
        }
    }

    /// `(cos(re) * cosh(im), -sin(re) * sinh(im))`.
    open spec fn cos_spec(self) -> Self {
        Complex {
            re: self.re.cos().mul(self.im.cosh()),
            im: self.re.sin().neg().mul(self.im.sinh()),
        }
    }

    fn cos(self) -> (r: Self) {
        Complex {
            re: self.re.cos().mul(self.im.cosh()),
            im: self.re.sin().neg().mul(self.im.sinh()),
        }
    }
}

/// A complex number stands for the constant expression of its value.
impl<S: Real> IntoFunc for Complex<S> {
    type Type = Constant<Complex<S>>;

    open spec fn into_func_spec(self) -> Func<Constant<Complex<S>>> {
        Func(Constant(self))
    }

    fn into_func(self) -> (f: Func<Constant<Complex<S>>>) {
        Func::constant(self)
    }
}

} // verus!

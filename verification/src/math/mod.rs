//! Numeric interfaces.
//!
//! Every computation of this crate is written once, over the traits below,
//! and runs at whatever precision the number type plugged in provides. Each
//! operation comes as a pair: an executable method and a specification
//! function of the same name with `_spec` appended. The executable method
//! promises to return exactly the value of its specification function, so
//! that the result of a computation is a function of its inputs alone.
//! Nothing else is assumed of the arithmetic: no associativity, no exactness,
//! no order axioms.
//!
//! [`Complex`] implements [`Number`], [`Exp`] and [`Trigo`] here, over any
//! [`Real`]. The real number types themselves come from outside: a type
//! backed by the floating-point numbers of the machine implements [`Real`]
//! and [`Scalar`], and gives each specification function the body of the
//! operation it stands for. What this crate proves holds for such a type
//! as far as its operations are functions of their arguments, and as far
//! as it keeps the one law that [`Scalar`] states.
use vstd::prelude::*;

pub mod complex;
pub mod function;
pub mod vector;

pub use complex::Complex;
pub use function::{Differentiable, Func, Function, IntoFunc};
pub use vector::{I64Vec2, UVec2, Vec2, Vec3};

verus! {

/// Field arithmetic shared by real and complex numbers.
pub trait Number: Copy {
    /// The additive identity.
    spec fn zero_spec() -> Self;

    #[verifier::when_used_as_spec(zero_spec)]
    fn zero() -> (r: Self)
        ensures
            r == Self::zero_spec(),
    ;

    /// The multiplicative identity.
    spec fn one_spec() -> Self;

    #[verifier::when_used_as_spec(one_spec)]
    fn one() -> (r: Self)
        ensures
            r == Self::one_spec(),
    ;

    /// The number `mantissa * 10^exponent`, as a single-precision literal of
    /// that value would be read.
    spec fn from_decimal_spec(mantissa: i32, exponent: i32) -> Self;

    #[verifier::when_used_as_spec(from_decimal_spec)]
    fn from_decimal(mantissa: i32, exponent: i32) -> (r: Self)
        ensures
            r == Self::from_decimal_spec(mantissa, exponent),
    ;

    spec fn add_spec(self, rhs: Self) -> Self;

    #[verifier::when_used_as_spec(add_spec)]
    fn add(self, rhs: Self) -> (r: Self)
        ensures
            r == self.add_spec(rhs),
    ;

    spec fn sub_spec(self, rhs: Self) -> Self;

    #[verifier::when_used_as_spec(sub_spec)]
    fn sub(self, rhs: Self) -> (r: Self)
        ensures
            r == self.sub_spec(rhs),
    ;

    spec fn mul_spec(self, rhs: Self) -> Self;

    #[verifier::when_used_as_spec(mul_spec)]
    fn mul(self, rhs: Self) -> (r: Self)
        ensures
            r == self.mul_spec(rhs),
    ;

    /// Division. It is total: what a zero divisor yields is up to the number
    /// type, and callers that care test the divisor first.
    spec fn div_spec(self, rhs: Self) -> Self;

    #[verifier::when_used_as_spec(div_spec)]
    fn div(self, rhs: Self) -> (r: Self)
        ensures
            r == self.div_spec(rhs),
    ;

    spec fn neg_spec(self) -> Self;

    #[verifier::when_used_as_spec(neg_spec)]
    fn neg(self) -> (r: Self)
        ensures
            r == self.neg_spec(),
    ;

    /// The reciprocal.
    spec fn inv_spec(self) -> Self;

    #[verifier::when_used_as_spec(inv_spec)]
    fn inv(self) -> (r: Self)
        ensures
            r == self.inv_spec(),
    ;
}

/// Powers, roots, exponentials and logarithms.
pub trait Exp: Sized {
    spec fn squared_spec(self) -> Self;

    #[verifier::when_used_as_spec(squared_spec)]
    fn squared(self) -> (r: Self)
        ensures
            r == self.squared_spec(),
    ;

    spec fn sqrt_spec(self) -> Self;

    #[verifier::when_used_as_spec(sqrt_spec)]
    fn sqrt(self) -> (r: Self)
        ensures
            r == self.sqrt_spec(),
    ;

    spec fn exp_spec(self) -> Self;

    #[verifier::when_used_as_spec(exp_spec)]
    fn exp(self) -> (r: Self)
        ensures
            r == self.exp_spec(),
    ;

    /// `self` raised to the power `exp`.
    spec fn pow_spec(self, exp: Self) -> Self;

    #[verifier::when_used_as_spec(pow_spec)]
    fn pow(self, exp: Self) -> (r: Self)
        ensures
            r == self.pow_spec(exp),
    ;

    /// The natural logarithm.
    spec fn ln_spec(self) -> Self;

    #[verifier::when_used_as_spec(ln_spec)]
    fn ln(self) -> (r: Self)
        ensures
            r == self.ln_spec(),
    ;

    /// The logarithm of `self` in the given base.
    spec fn log_spec(self, base: Self) -> Self;

    #[verifier::when_used_as_spec(log_spec)]
    fn log(self, base: Self) -> (r: Self)
        ensures
            r == self.log_spec(base),
    ;
}

/// Sine and cosine.
pub trait Trigo: Sized {
    spec fn sin_spec(self) -> Self;

    #[verifier::when_used_as_spec(sin_spec)]
    fn sin(self) -> (r: Self)
        ensures
            r == self.sin_spec(),
    ;

    spec fn cos_spec(self) -> Self;

    #[verifier::when_used_as_spec(cos_spec)]
    fn cos(self) -> (r: Self)
        ensures
            r == self.cos_spec(),
    ;
}

/// A real number type: the field operations, the elementary functions, an
/// order, and conversions from and to integers.
pub trait Real: Number + Exp + Trigo {
    /// Strictly less than.
    spec fn lt_spec(self, rhs: Self) -> bool;

    #[verifier::when_used_as_spec(lt_spec)]
    fn lt(self, rhs: Self) -> (r: bool)
        ensures
            r == self.lt_spec(rhs),
    ;

    /// Less than or equal.
    spec fn le_spec(self, rhs: Self) -> bool;

    #[verifier::when_used_as_spec(le_spec)]
    fn le(self, rhs: Self) -> (r: bool)
        ensures
            r == self.le_spec(rhs),
    ;

    /// Whether the number compares equal to zero.
    spec fn is_zero_spec(self) -> bool;

    #[verifier::when_used_as_spec(is_zero_spec)]
    fn is_zero(self) -> (r: bool)
        ensures
            r == self.is_zero_spec(),
    ;

    spec fn abs_spec(self) -> Self;

    #[verifier::when_used_as_spec(abs_spec)]
    fn abs(self) -> (r: Self)
        ensures
            r == self.abs_spec(),
    ;

    spec fn min_spec(self, rhs: Self) -> Self;

    #[verifier::when_used_as_spec(min_spec)]
    fn min(self, rhs: Self) -> (r: Self)
        ensures
            r == self.min_spec(rhs),
    ;

    spec fn max_spec(self, rhs: Self) -> Self;

    #[verifier::when_used_as_spec(max_spec)]
    fn max(self, rhs: Self) -> (r: Self)
        ensures
            r == self.max_spec(rhs),
    ;

    /// The largest integer not above `self`, as a number of the same type.
    spec fn floor_spec(self) -> Self;

    #[verifier::when_used_as_spec(floor_spec)]
    fn floor(self) -> (r: Self)
        ensures
            r == self.floor_spec(),
    ;

    /// The smallest integer not below `self`, as a number of the same type.
    spec fn ceil_spec(self) -> Self;

    #[verifier::when_used_as_spec(ceil_spec)]
    fn ceil(self) -> (r: Self)
        ensures
            r == self.ceil_spec(),
    ;

    /// The remainder of the division by `rhs` that has the sign of `self`.
    spec fn rem_spec(self, rhs: Self) -> Self;

    #[verifier::when_used_as_spec(rem_spec)]
    fn rem(self, rhs: Self) -> (r: Self)
        ensures
            r == self.rem_spec(rhs),
    ;

    /// The remainder of the division by `rhs` that is never negative.
    spec fn rem_euclid_spec(self, rhs: Self) -> Self;

    #[verifier::when_used_as_spec(rem_euclid_spec)]
    fn rem_euclid(self, rhs: Self) -> (r: Self)
        ensures
            r == self.rem_euclid_spec(rhs),
    ;

    /// The logarithm in base two.
    spec fn log2_spec(self) -> Self;

    #[verifier::when_used_as_spec(log2_spec)]
    fn log2(self) -> (r: Self)
        ensures
            r == self.log2_spec(),
    ;

    /// `self` raised to an integer power.
    spec fn powi_spec(self, n: i32) -> Self;

    #[verifier::when_used_as_spec(powi_spec)]
    fn powi(self, n: i32) -> (r: Self)
        ensures
            r == self.powi_spec(n),
    ;

    /// The angle of the point `(x, self)` seen from the origin, in radians.
    spec fn atan2_spec(self, x: Self) -> Self;

    #[verifier::when_used_as_spec(atan2_spec)]
    fn atan2(self, x: Self) -> (r: Self)
        ensures
            r == self.atan2_spec(x),
    ;

    spec fn sinh_spec(self) -> Self;

    #[verifier::when_used_as_spec(sinh_spec)]
    fn sinh(self) -> (r: Self)
        ensures
            r == self.sinh_spec(),
    ;

    spec fn cosh_spec(self) -> Self;

    #[verifier::when_used_as_spec(cosh_spec)]
    fn cosh(self) -> (r: Self)
        ensures
            r == self.cosh_spec(),
    ;

    spec fn tan_spec(self) -> Self;

    #[verifier::when_used_as_spec(tan_spec)]
    fn tan(self) -> (r: Self)
        ensures
            r == self.tan_spec(),
    ;

    /// The largest finite number of the type.
    spec fn max_value_spec() -> Self;

    #[verifier::when_used_as_spec(max_value_spec)]
    fn max_value() -> (r: Self)
        ensures
            r == Self::max_value_spec(),
    ;

    /// The full turn, in radians.
    spec fn tau_spec() -> Self;

    #[verifier::when_used_as_spec(tau_spec)]
    fn tau() -> (r: Self)
        ensures
            r == Self::tau_spec(),
    ;

    /// The number nearest to the integer `n`.
    spec fn from_int_spec(n: i64) -> Self;

    #[verifier::when_used_as_spec(from_int_spec)]
    fn from_int(n: i64) -> (r: Self)
        ensures
            r == Self::from_int_spec(n),
    ;

    /// The integer part of `self`, rounded toward zero and held to the range
    /// of `i64`; zero where `self` is no number.
    spec fn to_int_spec(self) -> i64;

    #[verifier::when_used_as_spec(to_int_spec)]
    fn to_int(self) -> (r: i64)
        ensures
            r == self.to_int_spec(),
    ;
}

/// The real number type of the plane, together with the single-precision type
/// in which escape values and colours are computed.
pub trait Scalar: Real {
    /// The single-precision type. For a single-precision scalar it is the
    /// scalar itself.
    type Single: Real;

    /// Narrows to single precision, rounding.
    spec fn to_single_spec(self) -> Self::Single;

    #[verifier::when_used_as_spec(to_single_spec)]
    fn to_single(self) -> (r: Self::Single)
        ensures
            r == self.to_single_spec(),
    ;

    /// Widens from single precision.
    spec fn from_single_spec(v: Self::Single) -> Self;

    #[verifier::when_used_as_spec(from_single_spec)]
    fn from_single(v: Self::Single) -> (r: Self)
        ensures
            r == Self::from_single_spec(v),
    ;

    /// Widening is exact: narrowing a widened number gives it back.
    proof fn widen_is_exact(v: Self::Single)
        ensures
            Self::from_single_spec(v).to_single_spec() == v,
    ;
}

/// The remainder of `v` by `d` that is never negative.
pub fn rem_euclid<V: Real>(v: V, d: V) -> (r: V)
    ensures
        r == v.rem_euclid(d),
{
    v.rem_euclid(d)
}

/// The exponential of `v`.
pub fn exp<V: Exp>(v: V) -> (r: V)
    ensures
        r == v.exp(),
{
    v.exp()
}

/// The natural logarithm of `v`.
pub fn ln<V: Exp>(v: V) -> (r: V)
    ensures
        r == v.ln(),
{
    v.ln()
}

/// The logarithm of `v` in base two.
pub fn log2<V: Real>(v: V) -> (r: V)
    ensures
        r == v.log2(),
{
    v.log2()
}

/// The logarithm of `v` in the base `base`.
pub fn log<V: Exp>(v: V, base: V) -> (r: V)
    ensures
        r == v.log(base),
{
    v.log(base)
}

/// `v` raised to the power `e`.
pub fn pow<V: Exp>(v: V, e: V) -> (r: V)
    ensures
        r == v.pow(e),
{
    v.pow(e)
}

/// The square root of `v`.
pub fn sqrt<V: Exp>(v: V) -> (r: V)
    ensures
        r == v.sqrt(),
{
    v.sqrt()
}

/// The largest integer not above `v`.
pub fn floor<V: Real>(v: V) -> (r: V)
    ensures
        r == v.floor(),
{
    v.floor()
}

/// The absolute value of `v`.
pub fn abs<V: Real>(v: V) -> (r: V)
    ensures
        r == v.abs(),
{
    v.abs()
}

/// The integer part of `v` as a `u32`: zero below zero, `u32::MAX` above it.
pub open spec fn to_u32_spec<R: Real>(v: R) -> u32 {
    let n = v.to_int_spec();
    if n < 0 {
        0
    } else if n > u32::MAX as i64 {
        u32::MAX
    } else {
        n as u32
    }
}

/// The integer part of `v`, held to the range of `u32`.
pub fn to_u32<R: Real>(v: R) -> (r: u32)
    ensures
        r == to_u32_spec(v),
{
    let n: i64 = v.to_int();
    if n < 0 {
        0
    } else if n > 0xffff_ffff {
        u32::MAX
    } else {
        n as u32
    }
}

/// The integer part of `v` as an `i32`, held to the range of `i32`.
pub open spec fn to_i32_spec<R: Real>(v: R) -> i32 {
    let n = v.to_int_spec();
    if n < i32::MIN as i64 {
        i32::MIN
    } else if n > i32::MAX as i64 {
        i32::MAX
    } else {
        n as i32
    }
}

/// The integer part of `v`, held to the range of `i32`.
pub fn to_i32<R: Real>(v: R) -> (r: i32)
    ensures
        r == to_i32_spec(v),
{
    let n: i64 = v.to_int();
    if n < -0x8000_0000 {
        i32::MIN
    } else if n > 0x7fff_ffff {
        i32::MAX
    } else {
        n as i32
    }
}

} // verus!

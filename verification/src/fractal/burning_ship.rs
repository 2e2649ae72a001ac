//! The Burning Ship: `z -> (|re z| + |im z| i)^2 + c`.
use super::escape_time_method::{
    compute_escape_time_fractal, default_bailout_radius, escape_time_fractal, orbit_seed,
    EscapeResult, C, Z,
};
use super::FractalParams;
use crate::math::function::{Composition, Differentiable, Func, Function, Squared, Sum};
use crate::math::{Complex, Number, Real, Scalar};
use vstd::prelude::*;

verus! {

pub const ITERATION_COUNT: u32 = 1024;

/// The absolute value of both parts of a complex number.
#[derive(Clone, Copy, Debug)]
pub struct Abs;

/// The derivative of [`Abs`], by the quadrant of the point.
#[derive(Clone, Copy, Debug)]
pub struct DAbs;

impl<S: Real> Function<Complex<S>> for Abs {
    type Output = Complex<S>;

    open spec fn get_spec(&self, z: Complex<S>) -> Complex<S> {
        Complex { re: z.re.abs(), im: z.im.abs() }
    }

    fn get(&self, z: Complex<S>) -> (y: Complex<S>) {
        Complex::from_vector(z.to_vector().abs())
    }
}

impl<S: Real> Differentiable<Complex<S>> for Abs {
    type Derivative = DAbs;

    open spec fn derivative_spec(&self) -> Func<DAbs> {
        Func(DAbs)
    }

    fn derivative(&self) -> (d: Func<DAbs>) {
        Func(DAbs)
    }
}

impl<S: Real> Function<Complex<S>> for DAbs {
    type Output = Complex<S>;

    /// One where neither part is negative, minus one where both are;
    /// `conj(z) / z` where only the imaginary part is negative and
    /// `-conj(z) / z` where only the real part is.
    open spec fn get_spec(&self, z: Complex<S>) -> Complex<S> {
        let re_positive = S::zero().le(z.re);
        let im_positive = S::zero().le(z.im);
        if re_positive && im_positive {
            Complex::one()
        } else if !re_positive && !im_positive {
            Complex::<S>::one().neg()
        } else if re_positive {
            z.conjugate().div(z)
        } else {
            z.conjugate().neg().div(z)
        }
    }

    fn get(&self, z: Complex<S>) -> (y: Complex<S>) {
        let re_positive = S::zero().le(z.re());
        let im_positive = S::zero().le(z.im());
        if re_positive && im_positive {
            Complex::one()
        } else if !re_positive && !im_positive {
            Complex::<S>::one().neg()
        } else if re_positive {
            z.conjugate().div(z)
        } else {
            z.conjugate().neg().div(z)
        }
    }
}

/// The step of the iteration, as an expression.
pub type Step<S> = Sum<Composition<Squared, Composition<Abs, Z>>, C<S>>;

/// The expression `abs(z)^2 + c`.
pub open spec fn step<S: Real>(c: Complex<S>) -> Step<S> {
    Sum(Composition(Squared, Composition(Abs, Z)), C(c))
}

/// Builds the step from the current point and the constant.
pub fn build_step<S: Real>(z: Func<Z>, c: Func<C<S>>) -> (f: Func<Step<S>>)
    ensures
        f == Func(step(c.0.0)),
{
    Func(Abs).compose(z).squared().add(c)
}

/// Evaluates `pos` under the Burning Ship iteration, with the bailout radius
/// ten to the eighth and the potential power two.
pub fn burning_ship<S: Scalar>(pos: Complex<S>, params: FractalParams<S>) -> (r: EscapeResult<
    S::Single,
>)
    ensures
        r == escape_time_fractal(
            step(orbit_seed(pos, params).1),
            orbit_seed(pos, params).0,
            params,
            S::Single::from_decimal(1, 8),
            Some(S::Single::from_decimal(2, 0)),
        ),
{
    compute_escape_time_fractal(
        pos,
        params,
        default_bailout_radius(),
        Some(S::Single::from_decimal(2, 0)),
        build_step::<S>,
    )
}

} // verus!

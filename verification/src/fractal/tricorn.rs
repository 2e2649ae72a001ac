//! The Tricorn: `z -> conj(z) * conj(z) + c`.
use super::escape_time_method::{
    compute_escape_time_fractal, default_bailout_radius, escape_time_fractal, orbit_seed,
    EscapeResult, C, Z,
};
use super::FractalParams;
use crate::math::function::{Composition, Differentiable, Func, Function, Squared, Sum};
use crate::math::{Complex, Number, Real, Scalar};
use vstd::prelude::*;

verus! {

pub const ITERATION_COUNT: u32 = 1024;

/// The complex conjugate.
#[derive(Clone, Copy, Debug)]
pub struct Conjugate;

/// What stands for the derivative of the conjugate in the chain rule:
/// `conj(z) / z`, the factor that turns `z` into its conjugate.
#[derive(Clone, Copy, Debug)]
pub struct DConjugate;

impl<S: Real> Function<Complex<S>> for Conjugate {
    type Output = Complex<S>;

    open spec fn get_spec(&self, z: Complex<S>) -> Complex<S> {
        z.conjugate()
    }

    fn get(&self, z: Complex<S>) -> (y: Complex<S>) {
        z.conjugate()
    }
}

impl<S: Real> Differentiable<Complex<S>> for Conjugate {
    type Derivative = DConjugate;

    open spec fn derivative_spec(&self) -> Func<DConjugate> {
        Func(DConjugate)
    }

    fn derivative(&self) -> (d: Func<DConjugate>) {
        Func(DConjugate)
    }
}

impl<S: Real> Function<Complex<S>> for DConjugate {
    type Output = Complex<S>;

    open spec fn get_spec(&self, z: Complex<S>) -> Complex<S> {
        z.conjugate().div_saturating(z)
    }

    fn get(&self, z: Complex<S>) -> (y: Complex<S>) {
        z.conjugate().div_saturating(z)
    }
}

/// The step of the iteration, as an expression.
pub type Step<S> = Sum<Composition<Squared, Composition<Conjugate, Z>>, C<S>>;

/// The expression `conj(z) * conj(z) + c`.
pub open spec fn step<S: Real>(c: Complex<S>) -> Step<S> {
    Sum(Composition(Squared, Composition(Conjugate, Z)), C(c))
}

/// Builds the step from the current point and the constant.
pub fn build_step<S: Real>(z: Func<Z>, c: Func<C<S>>) -> (f: Func<Step<S>>)
    ensures
        f == Func(step(c.0.0)),
{
    Func(Conjugate).compose(z).squared().add(c)
}

/// Evaluates `pos` under `z -> conj(z) * conj(z) + c`, with the bailout
/// radius ten to the eighth and the potential power two.
pub fn tricorn<S: Scalar>(pos: Complex<S>, params: FractalParams<S>) -> (r: EscapeResult<
    S::Single,
>)
    ensures
        r == escape_time_fractal(
            step(orbit_seed(pos, params).1),
            orbit_seed(pos, params).0,
            params,
            S::Single::from_decimal(1, 8),
            Some(S::Single::from_decimal(2, 0)),
        ),
{
    compute_escape_time_fractal(
        pos,
        params,
        default_bailout_radius(),
        Some(S::Single::from_decimal(2, 0)),
        build_step::<S>,
    )
}

} // verus!

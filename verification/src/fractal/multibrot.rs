//! The Multibrot set of degree three: `z -> z * z * z + c`.
use super::escape_time_method::{
    compute_escape_time_fractal, escape_time_fractal, orbit_seed, EscapeResult, C, Z,
};
use super::FractalParams;
use crate::math::function::{Composition, Func, Product, Squared, Sum};
use crate::math::{Complex, Number, Real, Scalar};
use vstd::prelude::*;

verus! {

pub const ITERATION_COUNT: u32 = 1024;

/// The step of the iteration, as an expression.
pub type Step<S> = Sum<Product<Composition<Squared, Z>, Z>, C<S>>;

/// The expression `(z * z) * z + c`.
pub open spec fn step<S: Real>(c: Complex<S>) -> Step<S> {
    Sum(Product(Composition(Squared, Z), Z), C(c))
}

/// Builds the step from the current point and the constant.
pub fn build_step<S: Real>(z: Func<Z>, c: Func<C<S>>) -> (f: Func<Step<S>>)
    ensures
        f == Func(step(c.0.0)),
{
    z.squared().mul(z).add(c)
}

/// Evaluates `pos` under `z -> z * z * z + c`, with the bailout radius ten
/// to the sixth and the potential power three.
pub fn multibrot3<S: Scalar>(pos: Complex<S>, params: FractalParams<S>) -> (r: EscapeResult<
    S::Single,
>)
    ensures
        r == escape_time_fractal(
            step(orbit_seed(pos, params).1),
            orbit_seed(pos, params).0,
            params,
            S::Single::from_decimal(1, 6),
            Some(S::Single::from_decimal(3, 0)),
        ),
{
    compute_escape_time_fractal(
        pos,
        params,
        S::Single::from_decimal(1, 6),
        Some(S::Single::from_decimal(3, 0)),
        build_step::<S>,
    )
}

} // verus!

//! The cosine leaf: `z -> cos(z / c)`.
use super::escape_time_method::{
    compute_escape_time_fractal, escape_time_fractal, orbit_seed, EscapeResult, C, Z,
};
use super::FractalParams;
use crate::math::function::{Composition, Cos, Division, Func};
use crate::math::{Complex, Number, Real, Scalar};
use vstd::prelude::*;

verus! {

pub const ITERATION_COUNT: u32 = 1024;

/// The step of the iteration, as an expression.
pub type Step<S> = Composition<Cos, Division<Z, C<S>>>;

/// The expression `cos(z / c)`.
pub open spec fn step<S: Real>(c: Complex<S>) -> Step<S> {
    Composition(Cos, Division(Z, C(c)))
}

/// Builds the step from the current point and the constant.
pub fn build_step<S: Real>(z: Func<Z>, c: Func<C<S>>) -> (f: Func<Step<S>>)
    ensures
        f == Func(step(c.0.0)),
{
    z.div(c).cos()
}

/// Evaluates `pos` under `z -> cos(z / c)`, with the bailout radius one
/// hundred and no smoothing.
pub fn cos_leaf<S: Scalar>(pos: Complex<S>, params: FractalParams<S>) -> (r: EscapeResult<
    S::Single,
>)
    ensures
        r == escape_time_fractal(
            step(orbit_seed(pos, params).1),
            orbit_seed(pos, params).0,
            params,
            S::Single::from_decimal(100, 0),
            None,
        ),
{
    compute_escape_time_fractal(
        pos,
        params,
        S::Single::from_decimal(100, 0),
        None,
        build_step::<S>,
    )
}

} // verus!

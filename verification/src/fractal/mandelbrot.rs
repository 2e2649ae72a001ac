//! The Mandelbrot set: `z -> z * z + c`.
use super::escape_time_method::{
    compute_escape_time_fractal, default_bailout_radius, escape_time_fractal, orbit_seed,
    EscapeResult, C, Z,
};
use super::{FractalParams, FractalVariation, RenderTechnique};
use crate::math::function::{Composition, Func, Squared, Sum};
use crate::math::{Complex, Number, Real, Scalar};
use vstd::prelude::*;

verus! {

pub const ITERATION_COUNT: u32 = 1024;

/// The step of the Mandelbrot iteration, as an expression.
pub type Step<S> = Sum<Composition<Squared, Z>, C<S>>;

/// The expression `z * z + c`.
pub open spec fn step<S: Real>(c: Complex<S>) -> Step<S> {
    Sum(Composition(Squared, Z), C(c))
}

/// Whether `pos` passes the closed-form test for the main cardioid: with
/// `q` the squared modulus of `pos - 1/4`,
/// `q * (q + (re - 1/4)) <= 1/4 * im * im`.
pub open spec fn in_cardioid<S: Real>(pos: Complex<S>) -> bool {
    let quarter = S::from_decimal(25, -2i32);
    let q = pos.add(Complex { re: quarter.neg(), im: S::zero() }).modulus_squared();
    q.mul(q.add(pos.re.sub(quarter))).le(quarter.mul(pos.im).mul(pos.im))
}

/// Whether `pos` passes the closed-form test for the disc of period two:
/// the squared modulus of `pos + 1` is less than `1/16`.
pub open spec fn in_period2_bulb<S: Real>(pos: Complex<S>) -> bool {
    let quarter = S::from_decimal(25, -2i32);
    pos.add(Complex::one()).modulus_squared().lt(quarter.mul(quarter))
}

/// Whether the shortcut applies: only the plain set, rendered by escape
/// time, is cut short.
pub open spec fn takes_shortcut<S: Scalar>(pos: Complex<S>, params: FractalParams<S>) -> bool {
    params.variation == FractalVariation::Normal && params.render_technique
        == RenderTechnique::Normal && (in_cardioid(pos) || in_period2_bulb(pos))
}

/// What the Mandelbrot iteration makes of `pos`.
pub open spec fn mandelbrot_value_spec<S: Scalar>(
    pos: Complex<S>,
    params: FractalParams<S>,
) -> EscapeResult<S::Single> {
    if takes_shortcut(pos, params) {
        EscapeResult::StayedInside
    } else {
        escape_time_fractal(
            step(orbit_seed(pos, params).1),
            orbit_seed(pos, params).0,
            params,
            S::Single::from_decimal(1, 8),
            Some(S::Single::from_decimal(2, 0)),
        )
    }
}

/// Builds the step from the current point and the constant.
pub fn build_step<S: Real>(z: Func<Z>, c: Func<C<S>>) -> (f: Func<Step<S>>)
    ensures
        f == Func(step(c.0.0)),
{
    z.squared().add(c)
}

/// Evaluates `pos` under the Mandelbrot iteration, with the bailout radius
/// ten to the eighth and the potential power two. A point that passes the
/// test for the main cardioid or for the disc of period two is reported
/// inside without a single step.
pub fn mandelbrot_value<S: Scalar>(pos: Complex<S>, params: FractalParams<S>) -> (r: EscapeResult<
    S::Single,
>)
    ensures
        r == mandelbrot_value_spec(pos, params),
        takes_shortcut(pos, params) ==> r == EscapeResult::<S::Single>::StayedInside,
{
    if params.variation == FractalVariation::Normal && params.render_technique
        == RenderTechnique::Normal {
        let quarter = S::from_decimal(25, -2);
        let q = pos.add(Complex::from_cartesian(quarter.neg(), S::zero())).modulus_squared();
        if q.mul(q.add(pos.re().sub(quarter))).le(quarter.mul(pos.im()).mul(pos.im()))
            || pos.add(Complex::one()).modulus_squared().lt(quarter.mul(quarter)) {
            return EscapeResult::StayedInside;
        }
    }
    compute_escape_time_fractal(
        pos,
        params,
        default_bailout_radius(),
        Some(S::Single::from_decimal(2, 0)),
        build_step::<S>,
    )
}

} // verus!

//! The escape-time engine: how the orbit of a point becomes a value.
use super::{FractalParams, FractalVariation, RenderTechnique};
use crate::math::function::{Differentiable, Func, Function};
use crate::math::{Complex, Exp, Number, Real, Scalar};
use vstd::prelude::*;

verus! {

/// What became of an orbit.
#[derive(Copy, Clone, Debug)]
pub enum EscapeResult<V> {
    /// The orbit left the bailout disc, or was trapped; the value says how.
    Escaped(V),
    /// The orbit was not seen to leave.
    StayedInside,
}

/// The bailout radius of the families that name none of their own: ten to
/// the eighth.
pub fn default_bailout_radius<V: Number>() -> (r: V)
    ensures
        r == V::from_decimal(1, 8),
{
    V::from_decimal(1, 8)
}

/// The current point of the orbit, as an expression.
#[derive(Clone, Copy, Debug)]
pub struct Z;

/// The derivative of the current point along the orbit.
#[derive(Clone, Copy, Debug)]
pub struct DZ;

/// The constant of the iteration, as an expression.
#[derive(Clone, Copy, Debug)]
pub struct C<S>(pub Complex<S>);

/// The derivative of the constant: one.
#[derive(Clone, Copy, Debug)]
pub struct DC;

impl<S: Real> Function<Complex<S>> for Z {
    type Output = Complex<S>;

    open spec fn get_spec(&self, z: Complex<S>) -> Complex<S> {
        z
    }

    fn get(&self, z: Complex<S>) -> (y: Complex<S>) {
        z
    }
}

impl<S: Real> Function<Complex<S>> for C<S> {
    type Output = Complex<S>;

    open spec fn get_spec(&self, z: Complex<S>) -> Complex<S> {
        self.0
    }

    fn get(&self, z: Complex<S>) -> (y: Complex<S>) {
        self.0
    }
}

impl<S: Real> Function<(Complex<S>, Complex<S>)> for Z {
    type Output = Complex<S>;

    open spec fn get_spec(&self, x: (Complex<S>, Complex<S>)) -> Complex<S> {
        x.0
    }

    fn get(&self, x: (Complex<S>, Complex<S>)) -> (y: Complex<S>) {
        x.0
    }
}

impl<S: Real> Function<(Complex<S>, Complex<S>)> for C<S> {
    type Output = Complex<S>;

    open spec fn get_spec(&self, x: (Complex<S>, Complex<S>)) -> Complex<S> {
        self.0
    }

    fn get(&self, x: (Complex<S>, Complex<S>)) -> (y: Complex<S>) {
        self.0
    }
}

impl<S: Real> Differentiable<(Complex<S>, Complex<S>)> for Z {
    type Derivative = DZ;

    open spec fn derivative_spec(&self) -> Func<DZ> {
        Func(DZ)
    }

    fn derivative(&self) -> (d: Func<DZ>) {
        Func(DZ)
    }
}

impl<S: Real> Function<(Complex<S>, Complex<S>)> for DZ {
    type Output = Complex<S>;

    open spec fn get_spec(&self, x: (Complex<S>, Complex<S>)) -> Complex<S> {
        x.1
    }

    fn get(&self, x: (Complex<S>, Complex<S>)) -> (y: Complex<S>) {
        x.1
    }
}

impl<S: Real> Differentiable<(Complex<S>, Complex<S>)> for C<S> {
    type Derivative = DC;

    open spec fn derivative_spec(&self) -> Func<DC> {
        Func(DC)
    }

    fn derivative(&self) -> (d: Func<DC>) {
        Func(DC)
    }
}

impl<S: Real> Function<(Complex<S>, Complex<S>)> for DC {
    type Output = Complex<S>;

    open spec fn get_spec(&self, x: (Complex<S>, Complex<S>)) -> Complex<S> {
        Complex::one()
    }

    fn get(&self, x: (Complex<S>, Complex<S>)) -> (y: Complex<S>) {
        Complex::one()
    }
}

/// An expression in the point and its derivative, read as a function of the
/// point alone: the derivative is held at zero.
#[derive(Clone, Copy, Debug)]
pub struct Partial<F>(pub F);

impl<S: Real, F> Function<Complex<S>> for Partial<F> where
    F: Function<(Complex<S>, Complex<S>), Output = Complex<S>>,
 {
    type Output = Complex<S>;

    open spec fn get_spec(&self, z: Complex<S>) -> Complex<S> {
        self.0.get((z, Complex::zero()))
    }

    fn get(&self, z: Complex<S>) -> (y: Complex<S>) {
        self.0.get((z, Complex::zero()))
    }
}

/// The squared modulus, as the distance of an orbit trap at the origin.
#[derive(Clone, Copy, Debug)]
pub struct PointTrap;

impl<S: Real> Function<Complex<S>> for PointTrap {
    type Output = S;

    open spec fn get_spec(&self, z: Complex<S>) -> S {
        z.modulus_squared()
    }

    fn get(&self, z: Complex<S>) -> (y: S) {
        z.modulus_squared()
    }
}

/// The distance to the nearer of the two axes: an orbit trap in the shape of
/// a cross.
#[derive(Clone, Copy, Debug)]
pub struct CrossTrap;

impl<S: Real> Function<Complex<S>> for CrossTrap {
    type Output = S;

    open spec fn get_spec(&self, z: Complex<S>) -> S {
        z.re.abs().min(z.im.abs())
    }

    fn get(&self, z: Complex<S>) -> (y: S) {
        z.re.abs().min(z.im.abs())
    }
}

/// The point of the orbit of `z0` under `f` after `n` steps.
pub open spec fn orbit<S, F>(f: F, z0: Complex<S>, n: nat) -> Complex<S> where
    F: Function<Complex<S>, Output = Complex<S>>,

    decreases n,
{
    if n == 0 {
        z0
    } else {
        f.get(orbit(f, z0, (n - 1) as nat))
    }
}

/// The step whose point the periodicity check of step `i` compares with:
/// the latest step before `i` that is 7 more than a multiple of 32, or the
/// start of the orbit where there is none.
pub open spec fn saved_step(i: nat) -> nat {
    if i <= 7 {
        0
    } else {
        ((i - 8) / 32 * 32 + 7) as nat
    }
}

/// Whether the orbit is outside the bailout disc when step `i` begins, that
/// is after `i - 1` applications of `f`.
pub open spec fn escapes_at<S: Real, F>(f: F, z0: Complex<S>, bailout_squared: S, i: nat) -> bool where
    F: Function<Complex<S>, Output = Complex<S>>,
 {
    bailout_squared.lt(orbit(f, z0, (i - 1) as nat).modulus_squared())
}

/// Whether the point that step `i` reaches is, within `epsilon`, the point
/// saved last: the orbit has run into a cycle.
pub open spec fn cycles_at<S: Real, F>(f: F, z0: Complex<S>, epsilon: S, i: nat) -> bool where
    F: Function<Complex<S>, Output = Complex<S>>,
 {
    orbit(f, z0, i).fuzzy_eq(orbit(f, z0, saved_step(i)), epsilon)
}

/// Whether the iteration ends at step `i`, if it gets there.
pub open spec fn stops_at<S: Real, F>(
    f: F,
    z0: Complex<S>,
    bailout_squared: S,
    epsilon: S,
    i: nat,
) -> bool where F: Function<Complex<S>, Output = Complex<S>> {
    escapes_at(f, z0, bailout_squared, i) || cycles_at(f, z0, epsilon, i)
}

/// The first step from `i` up to `limit` at which the iteration ends, or
/// `limit + 1` where there is none.
pub open spec fn first_stop_from<S: Real, F>(
    f: F,
    z0: Complex<S>,
    bailout_squared: S,
    epsilon: S,
    i: nat,
    limit: nat,
) -> nat where F: Function<Complex<S>, Output = Complex<S>>
    decreases limit + 1 - i,
{
    if i > limit {
        i
    } else if stops_at(f, z0, bailout_squared, epsilon, i) {
        i
    } else {
        first_stop_from(f, z0, bailout_squared, epsilon, i + 1, limit)
    }
}

/// What `first_stop_from` is: the least step from `i` on at which the
/// iteration ends.
pub proof fn lemma_first_stop<S: Real, F>(
    f: F,
    z0: Complex<S>,
    bailout_squared: S,
    epsilon: S,
    i: nat,
    limit: nat,
) where F: Function<Complex<S>, Output = Complex<S>>
    requires
        i <= limit + 1,
    ensures
        i <= first_stop_from(f, z0, bailout_squared, epsilon, i, limit) <= limit + 1,
        forall|j: nat|
            i <= j < first_stop_from(f, z0, bailout_squared, epsilon, i, limit) ==> !stops_at(
                f,
                z0,
                bailout_squared,
                epsilon,
                j,
            ),
        first_stop_from(f, z0, bailout_squared, epsilon, i, limit) <= limit ==> stops_at(
            f,
            z0,
            bailout_squared,
            epsilon,
            first_stop_from(f, z0, bailout_squared, epsilon, i, limit),
        ),
    decreases limit + 1 - i,
{
    if i <= limit && !stops_at(f, z0, bailout_squared, epsilon, i) {
        lemma_first_stop(f, z0, bailout_squared, epsilon, i + 1, limit);
    }
}

/// The value of an orbit that leaves the bailout disc at step `i` with the
/// squared modulus `length_squared`. Without a potential power it is `i`.
/// With the power `p` it is smoothed by the potential:
/// `max(i + 1 - ln(ln(length_squared) / 2) / ln(p), 1)`.
pub open spec fn escape_estimate<V: Real>(i: u32, length_squared: V, potential_power: Option<V>) -> V {
    match potential_power {
        Some(p) => {
            let log_zn = length_squared.ln().div(V::from_decimal(2, 0));
            V::from_int(i as i64).add(V::one()).sub(log_zn.ln().div(p.ln())).max(V::one())
        },
        None => V::from_int(i as i64),
    }
}

/// The tolerance of the periodicity check: ten to the minus twentieth.
pub open spec fn periodicity_epsilon<S: Real>() -> S {
    S::from_decimal(1, -20i32)
}

/// The result of the escape-time iteration of `f` from `z0`.
///
/// Step `i`, for `i` from 1 to `iteration_count`, first tests the current
/// point against the bailout radius and ends the iteration as escaped where
/// it is outside; then it applies `f`, and ends the iteration as inside
/// where the new point repeats the one saved last. Where no step ends the
/// iteration the orbit stayed inside.
pub open spec fn escape_time<S: Scalar, F>(
    f: F,
    z0: Complex<S>,
    iteration_count: u32,
    bailout_radius: S::Single,
    potential_power: Option<S::Single>,
) -> EscapeResult<S::Single> where F: Function<Complex<S>, Output = Complex<S>> {
    let bailout = S::from_single(bailout_radius);
    let bailout_squared = bailout.mul(bailout);
    let i = first_stop_from(
        f,
        z0,
        bailout_squared,
        periodicity_epsilon(),
        1,
        iteration_count as nat,
    );
    if i <= iteration_count && escapes_at(f, z0, bailout_squared, i) {
        EscapeResult::Escaped(
            escape_estimate(
                i as u32,
                orbit(f, z0, (i - 1) as nat).modulus_squared().to_single(),
                potential_power,
            ),
        )
    } else {
        EscapeResult::StayedInside
    }
}

/// How `escape_time` reads: the orbit has escaped exactly if some step
/// from 1 to `iteration_count` finds it outside the bailout disc and no
/// step before that one ended the iteration; the value is then the estimate
/// of that step. The orbit stayed inside exactly if no step ended the
/// iteration, or the first step that did saw a cycle and no escape.
pub proof fn lemma_escape_time<S: Scalar, F>(
    f: F,
    z0: Complex<S>,
    iteration_count: u32,
    bailout_radius: S::Single,
    potential_power: Option<S::Single>,
) where F: Function<Complex<S>, Output = Complex<S>>
    ensures
        ({
            let bailout_squared = S::from_single(bailout_radius).mul(
                S::from_single(bailout_radius),
            );
            let epsilon = periodicity_epsilon::<S>();
            match escape_time(f, z0, iteration_count, bailout_radius, potential_power) {
                EscapeResult::Escaped(v) => exists|i: nat|
                    {
                        &&& 1 <= i <= iteration_count
                        &&& #[trigger] escapes_at(f, z0, bailout_squared, i)
                        &&& forall|j: nat|
                            1 <= j < i ==> !stops_at(f, z0, bailout_squared, epsilon, j)
                        &&& v == escape_estimate(
                            i as u32,
                            orbit(f, z0, (i - 1) as nat).modulus_squared().to_single(),
                            potential_power,
                        )
                    },
                EscapeResult::StayedInside => {
                    ||| forall|j: nat|
                        1 <= j <= iteration_count ==> !stops_at(
                            f,
                            z0,
                            bailout_squared,
                            epsilon,
                            j,
                        )
                    ||| exists|i: nat|
                        {
                            &&& 1 <= i <= iteration_count
                            &&& !escapes_at(f, z0, bailout_squared, i)
                            &&& #[trigger] cycles_at(f, z0, epsilon, i)
                            &&& forall|j: nat|
                                1 <= j < i ==> !stops_at(f, z0, bailout_squared, epsilon, j)
                        }
                },
            }
        }),
{
    let bailout_squared = S::from_single(bailout_radius).mul(S::from_single(bailout_radius));
    let epsilon = periodicity_epsilon::<S>();
    lemma_first_stop(f, z0, bailout_squared, epsilon, 1, iteration_count as nat);
    let i = first_stop_from(f, z0, bailout_squared, epsilon, 1, iteration_count as nat);
    if i <= iteration_count {
        if escapes_at(f, z0, bailout_squared, i) {
            assert(escapes_at(f, z0, bailout_squared, i));
        } else {
            assert(cycles_at(f, z0, epsilon, i));
        }
    }
}

/// Iterates `iteration_function` from `z` until the orbit leaves the disc of
/// radius `bailout_radius`, runs into a cycle, or `iteration_count` steps are
/// done.
pub fn compute_escape_time<S: Scalar, F>(
    z: Complex<S>,
    iteration_count: u32,
    bailout_radius: S::Single,
    potential_power: Option<S::Single>,
    iteration_function: &F,
) -> (r: EscapeResult<S::Single>) where F: Function<Complex<S>, Output = Complex<S>>
    ensures
        r == escape_time(*iteration_function, z, iteration_count, bailout_radius, potential_power),
{
    let bailout = S::from_single(bailout_radius);
    let bailout_squared = bailout.mul(bailout);
    let epsilon = S::from_decimal(1, -20);
    let ghost f = *iteration_function;
    let ghost limit = iteration_count as nat;
    let mut current = z;
    let mut saved = z;
    let mut done: u32 = 0;
    while done < iteration_count
        invariant
            done <= iteration_count,
            limit == iteration_count,
            f == *iteration_function,
            epsilon == periodicity_epsilon::<S>(),
            bailout_squared == S::from_single(bailout_radius).mul(S::from_single(bailout_radius)),
            current == orbit(f, z, done as nat),
            saved == orbit(f, z, saved_step((done + 1) as nat)),
            first_stop_from(f, z, bailout_squared, epsilon, 1, limit) == first_stop_from(
                f,
                z,
                bailout_squared,
                epsilon,
                (done + 1) as nat,
                limit,
            ),
        decreases iteration_count - done,
    {
        let i: u32 = done + 1;
        let length_squared = current.modulus_squared();
        if bailout_squared.lt(length_squared) {
            let single = length_squared.to_single();
            let estimate = match potential_power {
                Some(p) => {
                    let log_zn = single.ln().div(S::Single::from_decimal(2, 0));
                    S::Single::from_int(i as i64).add(S::Single::one()).sub(
                        log_zn.ln().div(p.ln()),
                    ).max(S::Single::one())
                },
                None => S::Single::from_int(i as i64),
            };
            return EscapeResult::Escaped(estimate);
        }
        current = iteration_function.get(current);
        assert(current == orbit(f, z, i as nat));
        if current.fuzzy_eq(saved, epsilon) {
            return EscapeResult::StayedInside;
        }
        if i % 32 == 7 {
            saved = current;
        }
        done = i;
    }
    EscapeResult::StayedInside
}

/// The least distance that `distance_function` measures along the first `n`
/// steps of the orbit of `z0` under `f`, starting from the largest number
/// there is. The starting point itself is not measured.
pub open spec fn orbit_trap<S: Real, F, D>(f: F, distance_function: D, z0: Complex<S>, n: nat) -> S where
    F: Function<Complex<S>, Output = Complex<S>>,
    D: Function<Complex<S>, Output = S>,

    decreases n,
{
    if n == 0 {
        S::max_value()
    } else {
        orbit_trap(f, distance_function, z0, (n - 1) as nat).min(
            distance_function.get(orbit(f, z0, n)),
        )
    }
}

/// Applies `iteration_function` exactly `iteration_count` times from `z` and
/// returns the least distance met on the way, in single precision. No
/// bailout is tested.
pub fn compute_orbit_trap<S: Scalar, F, D>(
    z: Complex<S>,
    iteration_count: u32,
    iteration_function: &F,
    distance_function: &D,
) -> (r: S::Single) where
    F: Function<Complex<S>, Output = Complex<S>>,
    D: Function<Complex<S>, Output = S>,

    ensures
        r == orbit_trap(
            *iteration_function,
            *distance_function,
            z,
            iteration_count as nat,
        ).to_single(),
{
    let mut current = z;
    let mut dist = S::max_value();
    let mut done: u32 = 0;
    while done < iteration_count
        invariant
            done <= iteration_count,
            current == orbit(*iteration_function, z, done as nat),
            dist == orbit_trap(*iteration_function, *distance_function, z, done as nat),
        decreases iteration_count - done,
    {
        current = iteration_function.get(current);
        dist = dist.min(distance_function.get(current));
        done = done + 1;
    }
    dist.to_single()
}

/// The orbit of the normal-map technique after `n` steps: the point and its
/// derivative along the orbit. A step first moves the derivative by
/// `derivative`, then the point by `f`, which sees the new derivative. The
/// derivative starts at zero.
pub open spec fn normal_orbit<S: Real, F, D>(f: F, derivative: D, z0: Complex<S>, n: nat) -> (
    Complex<S>,
    Complex<S>,
) where
    F: Function<(Complex<S>, Complex<S>), Output = Complex<S>>,
    D: Function<(Complex<S>, Complex<S>), Output = Complex<S>>,

    decreases n,
{
    if n == 0 {
        (z0, Complex::zero())
    } else {
        let before = normal_orbit(f, derivative, z0, (n - 1) as nat);
        let dz = derivative.get(before);
        (f.get((before.0, dz)), dz)
    }
}

/// The first step from `i` up to `limit - 1` before which the normal-map
/// orbit is outside the bailout disc, or `limit` where there is none. Steps
/// count from zero here.
pub open spec fn first_escape_from<S: Real, F, D>(
    f: F,
    derivative: D,
    z0: Complex<S>,
    bailout_squared: S,
    i: nat,
    limit: nat,
) -> nat where
    F: Function<(Complex<S>, Complex<S>), Output = Complex<S>>,
    D: Function<(Complex<S>, Complex<S>), Output = Complex<S>>,

    decreases limit - i,
{
    if i >= limit {
        i
    } else if bailout_squared.lt(normal_orbit(f, derivative, z0, i).0.modulus_squared()) {
        i
    } else {
        first_escape_from(f, derivative, z0, bailout_squared, i + 1, limit)
    }
}

/// What `first_escape_from` is: the least step from `i` on before which the
/// orbit is outside the disc.
pub proof fn lemma_first_escape<S: Real, F, D>(
    f: F,
    derivative: D,
    z0: Complex<S>,
    bailout_squared: S,
    i: nat,
    limit: nat,
) where
    F: Function<(Complex<S>, Complex<S>), Output = Complex<S>>,
    D: Function<(Complex<S>, Complex<S>), Output = Complex<S>>,

    requires
        i <= limit,
    ensures
        i <= first_escape_from(f, derivative, z0, bailout_squared, i, limit) <= limit,
        forall|j: nat|
            i <= j < first_escape_from(f, derivative, z0, bailout_squared, i, limit)
                ==> !bailout_squared.lt(#[trigger] normal_orbit(f, derivative, z0, j).0.modulus_squared()),
        first_escape_from(f, derivative, z0, bailout_squared, i, limit) < limit
            ==> bailout_squared.lt(
            normal_orbit(
                f,
                derivative,
                z0,
                first_escape_from(f, derivative, z0, bailout_squared, i, limit),
            ).0.modulus_squared(),
        ),
    decreases limit - i,
{
    if i < limit && !bailout_squared.lt(normal_orbit(f, derivative, z0, i).0.modulus_squared()) {
        lemma_first_escape(f, derivative, z0, bailout_squared, i + 1, limit);
    }
}

/// The direction the light of the normal map comes from: the unit vector at
/// 45 degrees, computed in single precision.
pub open spec fn light_direction<V: Real>() -> Complex<V> {
    Complex::from_polar(
        V::one(),
        V::from_decimal(45, 0).mul(V::tau()).div(V::from_decimal(360, 0)),
    )
}

/// The brightness of a point of the normal map that escaped at `z` with the
/// derivative `dz`: with `u` the unit vector along `z / dz`, half of one
/// plus the scalar product of `u` and the light direction. Both divisions
/// saturate on a divisor of modulus zero.
pub open spec fn normal_shade<S: Scalar>(z: Complex<S>, dz: Complex<S>) -> S::Single {
    let u = z.div_saturating(dz).normalize();
    let light = Complex::<S>::from_single(light_direction::<S::Single>());
    let t = u.to_vector().dot(light.to_vector()).to_single();
    t.add(S::Single::one()).div(S::Single::from_decimal(2, 0))
}

/// The result of the normal-map technique: the shade of the first point of
/// the orbit outside the bailout disc, among the points before each of the
/// `iteration_count` steps; inside where there is none.
pub open spec fn normal_map<S: Scalar, F>(
    f: F,
    z0: Complex<S>,
    iteration_count: u32,
    bailout_radius: S::Single,
) -> EscapeResult<S::Single> where
    F: Function<(Complex<S>, Complex<S>), Output = Complex<S>> + Differentiable<
        (Complex<S>, Complex<S>),
    >,
    F::Derivative: Function<(Complex<S>, Complex<S>), Output = Complex<S>>,
 {
    let bailout = S::from_single(bailout_radius);
    let bailout_squared = bailout.mul(bailout);
    let d = f.derivative().0;
    let i = first_escape_from(f, d, z0, bailout_squared, 0, iteration_count as nat);
    if i < iteration_count {
        let at = normal_orbit(f, d, z0, i);
        EscapeResult::Escaped(normal_shade(at.0, at.1))
    } else {
        EscapeResult::StayedInside
    }
}

/// Iterates `iteration_function` together with its derivative along the
/// orbit, and shades the point at which the orbit leaves the disc of radius
/// `bailout_radius` by the direction in which it leaves.
pub fn compute_normal_map<S: Scalar, F>(
    z: Complex<S>,
    iteration_count: u32,
    bailout_radius: S::Single,
    iteration_function: &Func<F>,
) -> (r: EscapeResult<S::Single>) where
    F: Function<(Complex<S>, Complex<S>), Output = Complex<S>> + Differentiable<
        (Complex<S>, Complex<S>),
    >,
    F::Derivative: Function<(Complex<S>, Complex<S>), Output = Complex<S>>,

    ensures
        r == normal_map(iteration_function.0, z, iteration_count, bailout_radius),
{
    let light_angle = S::Single::from_decimal(45, 0);
    let light_dir = Complex::<S>::from_single(
        Complex::from_polar(
            S::Single::one(),
            light_angle.mul(S::Single::tau()).div(S::Single::from_decimal(360, 0)),
        ),
    );
    let bailout = S::from_single(bailout_radius);
    let bailout_squared = bailout.mul(bailout);
    let derivative = iteration_function.derivative();
    let ghost f = iteration_function.0;
    let ghost d = derivative.0;
    let ghost limit = iteration_count as nat;
    let mut current = z;
    let mut dz = Complex::<S>::zero();
    let mut done: u32 = 0;
    while done < iteration_count
        invariant
            done <= iteration_count,
            limit == iteration_count,
            f == iteration_function.0,
            d == f.derivative().0,
            d == derivative.0,
            bailout_squared == S::from_single(bailout_radius).mul(S::from_single(bailout_radius)),
            light_dir == Complex::<S>::from_single(light_direction::<S::Single>()),
            (current, dz) == normal_orbit(f, d, z, done as nat),
            first_escape_from(f, d, z, bailout_squared, 0, limit) == first_escape_from(
                f,
                d,
                z,
                bailout_squared,
                done as nat,
                limit,
            ),
        decreases iteration_count - done,
    {
        let length_squared = current.modulus_squared();
        if bailout_squared.lt(length_squared) {
            let u = current.div_saturating(dz).normalize();
            let t = u.to_vector().dot(light_dir.to_vector()).to_single();
            let t = t.add(S::Single::one()).div(S::Single::from_decimal(2, 0));
            return EscapeResult::Escaped(t);
        }
        dz = derivative.get((current, dz));
        current = iteration_function.get((current, dz));
        done = done + 1;
    }
    EscapeResult::StayedInside
}

/// Where the orbit of a picture point starts and which constant drives it:
/// from zero with the point as the constant, or, for a Julia set, from the
/// point with the secondary position as the constant.
pub open spec fn orbit_seed<S: Scalar>(pos: Complex<S>, params: FractalParams<S>) -> (
    Complex<S>,
    Complex<S>,
) {
    match params.variation {
        FractalVariation::Normal => (Complex::zero(), pos),
        FractalVariation::JuliaSet => (pos, params.secondary_pos),
    }
}

/// The value of the point `z` under the iteration `f`, by the render
/// technique and the iteration limit of `params`.
pub open spec fn escape_time_fractal<S: Scalar, F>(
    f: F,
    z: Complex<S>,
    params: FractalParams<S>,
    bailout_radius: S::Single,
    potential_power: Option<S::Single>,
) -> EscapeResult<S::Single> where
    F: Function<(Complex<S>, Complex<S>), Output = Complex<S>> + Differentiable<
        (Complex<S>, Complex<S>),
    >,
    F::Derivative: Function<(Complex<S>, Complex<S>), Output = Complex<S>>,
 {
    match params.render_technique {
        RenderTechnique::Normal => escape_time(
            Partial(f),
            z,
            params.iteration_limit,
            bailout_radius,
            potential_power,
        ),
        RenderTechnique::OrbitTrapPoint => EscapeResult::Escaped(
            orbit_trap(Partial(f), PointTrap, z, params.iteration_limit as nat).to_single(),
        ),
        RenderTechnique::OrbitTrapCross => EscapeResult::Escaped(
            orbit_trap(Partial(f), CrossTrap, z, params.iteration_limit as nat).to_single(),
        ),
        RenderTechnique::NormalMap => normal_map(f, z, params.iteration_limit, bailout_radius),
    }
}

/// Evaluates the point `pos` of the picture. `iteration_function` builds the
/// iteration from the current point and the constant; it is called once,
/// with the constant that the variation of `params` picks.
pub fn compute_escape_time_fractal<S: Scalar, G, F>(
    pos: Complex<S>,
    params: FractalParams<S>,
    bailout_radius: S::Single,
    potential_power: Option<S::Single>,
    iteration_function: G,
) -> (r: EscapeResult<S::Single>) where
    G: FnOnce(Func<Z>, Func<C<S>>) -> Func<F>,
    F: Function<(Complex<S>, Complex<S>), Output = Complex<S>> + Differentiable<
        (Complex<S>, Complex<S>),
    >,
    F::Derivative: Function<(Complex<S>, Complex<S>), Output = Complex<S>>,

    requires
        iteration_function.requires((Func(Z), Func(C(orbit_seed(pos, params).1)))),
    ensures
        exists|f: Func<F>|
            iteration_function.ensures((Func(Z), Func(C(orbit_seed(pos, params).1))), f) && r
                == escape_time_fractal(
                f.0,
                orbit_seed(pos, params).0,
                params,
                bailout_radius,
                potential_power,
            ),
{
    let (z, c) = match params.variation {
        FractalVariation::Normal => (Complex::zero(), pos),
        FractalVariation::JuliaSet => (pos, params.secondary_pos),
    };
    let f = iteration_function(Func(Z), Func(C(c)));
    let r = match params.render_technique {
        RenderTechnique::Normal => compute_escape_time(
            z,
            params.iteration_limit,
            bailout_radius,
            potential_power,
            &Partial(f.0),
        ),
        RenderTechnique::OrbitTrapPoint => EscapeResult::Escaped(
            compute_orbit_trap(z, params.iteration_limit, &Partial(f.0), &PointTrap),
        ),
        RenderTechnique::OrbitTrapCross => EscapeResult::Escaped(
            compute_orbit_trap(z, params.iteration_limit, &Partial(f.0), &CrossTrap),
        ),
        RenderTechnique::NormalMap => compute_normal_map(
            z,
            params.iteration_limit,
            bailout_radius,
            &f,
        ),
    };
    assert(iteration_function.ensures((Func(Z), Func(C(orbit_seed(pos, params).1))), f) && r
        == escape_time_fractal(
        f.0,
        orbit_seed(pos, params).0,
        params,
        bailout_radius,
        potential_power,
    ));
    r
}

} // verus!

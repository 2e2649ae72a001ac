//! Newton's method, coloured by the root that a starting point runs to.
use super::{FractalParams, FractalVariation};
use crate::math::function::{
    Composition, Constant, Difference, Differentiable, Func, Function, Identity, Product, Squared,
};
use crate::math::{Complex, Exp, Number, Real, Scalar, Vec3};
use vstd::prelude::*;

verus! {

pub const ITERATION_COUNT: u32 = 128;

/// One Newton step at `z`: `a * (f(z) / f'(z)) + c`, the amount by which
/// `z` moves. The division saturates where the derivative has modulus zero.
pub open spec fn newton_delta<S: Real, F>(
    f: F,
    a: Complex<S>,
    c: Complex<S>,
    z: Complex<S>,
) -> Complex<S> where
    F: Function<Complex<S>, Output = Complex<S>> + Differentiable<Complex<S>>,
    F::Derivative: Function<Complex<S>, Output = Complex<S>>,
 {
    a.mul(f.get(z).div_saturating(f.derivative().0.get(z))).add(c)
}

/// The point after `n` Newton steps from `z0`.
pub open spec fn newton_orbit<S: Real, F>(
    f: F,
    a: Complex<S>,
    c: Complex<S>,
    z0: Complex<S>,
    n: nat,
) -> Complex<S> where
    F: Function<Complex<S>, Output = Complex<S>> + Differentiable<Complex<S>>,
    F::Derivative: Function<Complex<S>, Output = Complex<S>>,

    decreases n,
{
    if n == 0 {
        z0
    } else {
        let z = newton_orbit(f, a, c, z0, (n - 1) as nat);
        z.sub(newton_delta(f, a, c, z))
    }
}

/// Whether step `i` moves the point by no more than ten to the minus
/// sixteenth in either part.
pub open spec fn converged_at<S: Real, F>(
    f: F,
    a: Complex<S>,
    c: Complex<S>,
    z0: Complex<S>,
    i: nat,
) -> bool where
    F: Function<Complex<S>, Output = Complex<S>> + Differentiable<Complex<S>>,
    F::Derivative: Function<Complex<S>, Output = Complex<S>>,
 {
    newton_delta(f, a, c, newton_orbit(f, a, c, z0, (i - 1) as nat)).fuzzy_eq(
        Complex::zero(),
        S::from_decimal(1, -16i32),
    )
}

/// The number of steps taken when the iteration has got to step `i`: the
/// first step from `i` on that converges, and `limit` where none does.
pub open spec fn steps_from<S: Real, F>(
    f: F,
    a: Complex<S>,
    c: Complex<S>,
    z0: Complex<S>,
    i: nat,
    limit: nat,
) -> nat where
    F: Function<Complex<S>, Output = Complex<S>> + Differentiable<Complex<S>>,
    F::Derivative: Function<Complex<S>, Output = Complex<S>>,

    decreases limit - i,
{
    if i >= limit {
        limit
    } else if converged_at(f, a, c, z0, i) {
        i
    } else {
        steps_from(f, a, c, z0, i + 1, limit)
    }
}

/// What `steps_from` is: no step from `i` up to it converges but, short of
/// the limit, the last.
pub proof fn lemma_steps_from<S: Real, F>(
    f: F,
    a: Complex<S>,
    c: Complex<S>,
    z0: Complex<S>,
    i: nat,
    limit: nat,
) where
    F: Function<Complex<S>, Output = Complex<S>> + Differentiable<Complex<S>>,
    F::Derivative: Function<Complex<S>, Output = Complex<S>>,

    requires
        1 <= i,
        i <= limit || limit == 0,
    ensures
        steps_from(f, a, c, z0, i, limit) <= limit,
        limit > 0 ==> i <= steps_from(f, a, c, z0, i, limit),
        forall|j: nat|
            i <= j < steps_from(f, a, c, z0, i, limit) ==> !converged_at(f, a, c, z0, j),
        steps_from(f, a, c, z0, i, limit) < limit ==> converged_at(
            f,
            a,
            c,
            z0,
            steps_from(f, a, c, z0, i, limit),
        ),
    decreases limit - i,
{
    if i < limit && !converged_at(f, a, c, z0, i) {
        lemma_steps_from(f, a, c, z0, i + 1, limit);
    }
}

/// Where Newton's method ends up from `z0` within `iteration_count` steps.
pub open spec fn newton_limit<S: Real, F>(
    f: F,
    a: Complex<S>,
    c: Complex<S>,
    z0: Complex<S>,
    iteration_count: u32,
) -> Complex<S> where
    F: Function<Complex<S>, Output = Complex<S>> + Differentiable<Complex<S>>,
    F::Derivative: Function<Complex<S>, Output = Complex<S>>,
 {
    newton_orbit(f, a, c, z0, steps_from(f, a, c, z0, 1, iteration_count as nat))
}

/// The weight of a root for the point `z`: the reciprocal of the squared
/// distance between them, held to ten to the tenth.
pub open spec fn root_weight<S: Real>(root: Complex<S>, z: Complex<S>) -> S {
    Complex::<S>::saturating_inv(root.sub(z).modulus_squared())
}

/// The sum of the weights of the first `n` roots, added up in their order.
pub open spec fn weight_sum<S: Real>(roots: Seq<Complex<S>>, z: Complex<S>, n: nat) -> S
    decreases n,
{
    if n == 0 {
        S::zero()
    } else {
        weight_sum(roots, z, (n - 1) as nat).add(root_weight(roots[n - 1], z))
    }
}

/// The colours of the first `n` roots, each by its share of the weight of
/// all roots, added up in their order.
pub open spec fn blend<S: Scalar>(
    roots: Seq<Complex<S>>,
    root_colors: Seq<Vec3<S::Single>>,
    z: Complex<S>,
    n: nat,
) -> Vec3<S::Single>
    decreases n,
{
    if n == 0 {
        Vec3 { x: S::Single::zero(), y: S::Single::zero(), z: S::Single::zero() }
    } else {
        let share = root_weight(roots[n - 1], z).div(weight_sum(roots, z, roots.len()));
        blend(roots, root_colors, z, (n - 1) as nat).add(
            root_colors[n - 1].scale(share.to_single()),
        )
    }
}

/// Runs Newton's method on `function` from `z0`, with the relaxation `a`
/// and the offset `c`, until a step moves the point by no more than ten to
/// the minus sixteenth or `iteration_count` steps are done; then blends the
/// colours of the roots by how near the point has come to each.
pub fn newton<S: Scalar, F, const T: usize>(
    iteration_count: u32,
    a: Complex<S>,
    c: Complex<S>,
    z0: Complex<S>,
    roots: [Complex<S>; T],
    root_colors: [Vec3<S::Single>; T],
    function: Func<F>,
) -> (color: Vec3<S::Single>) where
    F: Function<Complex<S>, Output = Complex<S>> + Differentiable<Complex<S>>,
    F::Derivative: Function<Complex<S>, Output = Complex<S>>,

    ensures
        color == blend(
            roots@,
            root_colors@,
            newton_limit(function.0, a, c, z0, iteration_count),
            T as nat,
        ),
{
    let derivative = function.derivative();
    let ghost f = function.0;
    let ghost limit = iteration_count as nat;
    let epsilon = S::from_decimal(1, -16);
    let mut z = z0;
    let mut done: u32 = 0;
    let mut converged = false;
    while done < iteration_count && !converged
        invariant
            done <= iteration_count,
            limit == iteration_count,
            f == function.0,
            derivative == f.derivative(),
            epsilon == S::from_decimal(1, -16i32),
            z == newton_orbit(f, a, c, z0, done as nat),
            converged ==> steps_from(f, a, c, z0, 1, limit) == done,
            !converged ==> steps_from(f, a, c, z0, 1, limit) == steps_from(
                f,
                a,
                c,
                z0,
                (done + 1) as nat,
                limit,
            ),
        decreases iteration_count - done,
    {
        let delta = a.mul(function.get(z).div_saturating(derivative.get(z))).add(c);
        assert(delta == newton_delta(f, a, c, z));
        z = z.sub(delta);
        done = done + 1;
        if delta.fuzzy_eq(Complex::zero(), epsilon) {
            converged = true;
        }
    }
    assert(z == newton_limit(f, a, c, z0, iteration_count));
    let mut dists: Vec<S> = Vec::new();
    let mut i: usize = 0;
    while i < T
        invariant
            i <= T,
            roots@.len() == T,
            dists@.len() == i,
            forall|k: int| 0 <= k < i ==> dists@[k] == root_weight(roots@[k], z),
        decreases T - i,
    {
        dists.push(Complex::<S>::saturating_inv(roots[i].sub(z).modulus_squared()));
        i = i + 1;
    }
    let mut sum = S::zero();
    let mut i: usize = 0;
    while i < T
        invariant
            i <= T,
            roots@.len() == T,
            dists@.len() == T,
            forall|k: int| 0 <= k < T ==> dists@[k] == root_weight(roots@[k], z),
            sum == weight_sum(roots@, z, i as nat),
        decreases T - i,
    {
        sum = sum.add(dists[i]);
        i = i + 1;
    }
    let mut color = Vec3::new(S::Single::zero(), S::Single::zero(), S::Single::zero());
    let mut i: usize = 0;
    while i < T
        invariant
            i <= T,
            roots@.len() == T,
            root_colors@.len() == T,
            dists@.len() == T,
            forall|k: int| 0 <= k < T ==> dists@[k] == root_weight(roots@[k], z),
            sum == weight_sum(roots@, z, T as nat),
            color == blend(roots@, root_colors@, z, i as nat),
        decreases T - i,
    {
        color = color.add(root_colors[i].scale(dists[i].div(sum).to_single()));
        i = i + 1;
    }
    color
}

/// The polynomial `z^3 - 1`, as an expression.
pub type Cubic<S> = Difference<
    Product<Composition<Squared, Identity>, Identity>,
    Constant<Complex<S>>,
>;

/// The expression `(z * z) * z - 1`.
pub open spec fn cubic<S: Real>() -> Cubic<S> {
    Difference(Product(Composition(Squared, Identity), Identity), Constant(Complex::one()))
}

/// Builds `z^3 - 1` from the identity.
pub fn build_cubic<S: Real>(z: Func<Identity>) -> (f: Func<Cubic<S>>)
    ensures
        f == Func(cubic::<S>()),
{
    z.squared().mul(z).sub(Complex::<S>::one())
}

/// The three cube roots of one, computed in single precision: `1`,
/// `-1/2 + sqrt(3)/2 i` and `-1/2 - sqrt(3)/2 i`.
pub open spec fn cube_roots_of_unity<S: Scalar>() -> Seq<Complex<S>> {
    let one = S::Single::one();
    let zero = S::Single::zero();
    let half = S::Single::from_decimal(-5i32, -1i32);
    let three = S::Single::from_decimal(3, 0);
    let two = S::Single::from_decimal(2, 0);
    seq![
        Complex::<S>::from_single(Complex { re: one, im: zero }),
        Complex::<S>::from_single(Complex { re: half, im: three.sqrt().div(two) }),
        Complex::<S>::from_single(Complex { re: half, im: three.sqrt().neg().div(two) }),
    ]
}

/// The colours of the three roots: pure red, green and blue.
pub open spec fn root_palette<V: Real>() -> Seq<Vec3<V>> {
    seq![
        Vec3 { x: V::one(), y: V::zero(), z: V::zero() },
        Vec3 { x: V::zero(), y: V::one(), z: V::zero() },
        Vec3 { x: V::zero(), y: V::zero(), z: V::one() },
    ]
}

/// Where the iteration for a picture point starts and which offset each
/// step adds: from the point with no offset, or, for the Julia variation,
/// from the secondary position with the point as the offset.
pub open spec fn newton_seed<S: Scalar>(pos: Complex<S>, params: FractalParams<S>) -> (
    Complex<S>,
    Complex<S>,
) {
    match params.variation {
        FractalVariation::Normal => (pos, Complex::zero()),
        FractalVariation::JuliaSet => (params.secondary_pos, pos),
    }
}

/// The colour of `pos` under Newton's method for `z^3 - 1`: 128 steps at
/// most, then red, green and blue by the nearness of the three roots.
pub fn newton3<S: Scalar>(pos: Complex<S>, params: FractalParams<S>) -> (color: Vec3<S::Single>)
    ensures
        color == blend(
            cube_roots_of_unity::<S>(),
            root_palette::<S::Single>(),
            newton_limit(
                cubic::<S>(),
                Complex::one(),
                newton_seed(pos, params).1,
                newton_seed(pos, params).0,
                ITERATION_COUNT,
            ),
            3,
        ),
{
    let (z, c) = match params.variation {
        FractalVariation::Normal => (pos, Complex::zero()),
        FractalVariation::JuliaSet => (params.secondary_pos, pos),
    };
    let one = S::Single::one();
    let zero = S::Single::zero();
    let half = S::Single::from_decimal(-5, -1);
    let three = S::Single::from_decimal(3, 0);
    let two = S::Single::from_decimal(2, 0);
    let roots = [
        Complex::<S>::from_single(Complex::new(one, zero)),
        Complex::<S>::from_single(Complex::new(half, three.sqrt().div(two))),
        Complex::<S>::from_single(Complex::new(half, three.sqrt().neg().div(two))),
    ];
    let root_colors = [
        Vec3::new(one, zero, zero),
        Vec3::new(zero, one, zero),
        Vec3::new(zero, zero, one),
    ];
    assert(roots@ =~= cube_roots_of_unity::<S>());
    assert(root_colors@ =~= root_palette::<S::Single>());
    let function = Func::make(build_cubic::<S>);
    newton(ITERATION_COUNT, Complex::one(), c, z, roots, root_colors, function)
}

} // verus!

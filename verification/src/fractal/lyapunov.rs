//! The Lyapunov exponent of the logistic map driven by a periodic sequence.
use crate::math::{Exp, Number, Real, Scalar, Vec2};
use vstd::prelude::*;

verus! {

pub const ITERATION_COUNT: u32 = 1024;

/// The growth rate of step `i`: the second coordinate of `pos` where the
/// sequence, repeated for ever, says so, the first where it does not.
pub open spec fn rate<S: Real>(sequence: Seq<bool>, pos: Vec2<S>, i: nat) -> S {
    if sequence[(i % sequence.len()) as int] {
        pos.y
    } else {
        pos.x
    }
}

/// The state of the logistic map `x -> r * x * (1 - x)` after `n` steps
/// from one half.
pub open spec fn population<S: Real>(sequence: Seq<bool>, pos: Vec2<S>, n: nat) -> S
    decreases n,
{
    if n == 0 {
        S::from_decimal(5, -1i32)
    } else {
        let x = population(sequence, pos, (n - 1) as nat);
        rate(sequence, pos, (n - 1) as nat).mul(x).mul(S::one().sub(x))
    }
}

/// The logarithm of the stretch at step `i`, in single precision:
/// `ln |r * (1 - 2 * x)|`.
pub open spec fn stretch<S: Scalar>(sequence: Seq<bool>, pos: Vec2<S>, i: nat) -> S::Single {
    let x = population(sequence, pos, i);
    rate(sequence, pos, i).mul(S::one().sub(S::from_decimal(2, 0).mul(x))).to_single().abs().ln()
}

/// The stretches of the steps `1` to `n - 1`, added up in their order. Step
/// `0` adds nothing.
pub open spec fn stretch_sum<S: Scalar>(sequence: Seq<bool>, pos: Vec2<S>, n: nat) -> S::Single
    decreases n,
{
    if n == 0 {
        S::Single::zero()
    } else if n == 1 {
        stretch_sum(sequence, pos, 0)
    } else {
        stretch_sum(sequence, pos, (n - 1) as nat).add(stretch(sequence, pos, (n - 1) as nat))
    }
}

/// Whether `pos` lies outside the square from 0 to 4 on which the logistic
/// map is studied.
pub open spec fn outside_domain<S: Real>(pos: Vec2<S>) -> bool {
    let zero = S::zero();
    let four = S::from_decimal(4, 0);
    pos.x.lt(zero) || pos.y.lt(zero) || four.lt(pos.x) || four.lt(pos.y)
}

/// The Lyapunov exponent at `pos`: zero outside the domain, else the sum
/// of the stretches over the number of steps.
pub open spec fn lyapunov_spec<S: Scalar>(
    sequence: Seq<bool>,
    pos: Vec2<S>,
    iteration_count: u32,
) -> S::Single {
    if outside_domain(pos) {
        S::Single::zero()
    } else {
        stretch_sum(sequence, pos, iteration_count as nat).div(
            S::Single::from_int(iteration_count as i64),
        )
    }
}

/// Computes the Lyapunov exponent of the logistic map whose growth rate
/// alternates between the coordinates of `pos` as `sequence` says. The
/// sequence must not be empty.
pub fn lyapunov<S: Scalar, const L: usize>(
    sequence: &[bool; L],
    pos: Vec2<S>,
    iteration_count: u32,
) -> (exponent: S::Single)
    requires
        L > 0,
    ensures
        exponent == lyapunov_spec(sequence@, pos, iteration_count),
{
    let zero = S::zero();
    let one = S::one();
    let two = S::from_decimal(2, 0);
    let four = S::from_decimal(4, 0);
    if pos.x.lt(zero) || pos.y.lt(zero) || four.lt(pos.x) || four.lt(pos.y) {
        return S::Single::zero();
    }
    let mut x = S::from_decimal(5, -1);
    let mut lyapunov_exp = S::Single::zero();
    let mut i: u32 = 0;
    while i < iteration_count
        invariant
            i <= iteration_count,
            L > 0,
            sequence@.len() == L,
            one == S::one(),
            two == S::from_decimal(2, 0),
            x == population(sequence@, pos, i as nat),
            lyapunov_exp == stretch_sum(sequence@, pos, i as nat),
        decreases iteration_count - i,
    {
        let rn = if sequence[i as usize % L] {
            pos.y
        } else {
            pos.x
        };
        assert(rn == rate(sequence@, pos, i as nat));
        if i != 0 {
            lyapunov_exp = lyapunov_exp.add(rn.mul(one.sub(two.mul(x))).to_single().abs().ln());
        }
        x = rn.mul(x).mul(one.sub(x));
        i = i + 1;
    }
    lyapunov_exp.div(S::Single::from_int(iteration_count as i64))
}

} // verus!

//! Small vectors of real numbers: points of the plane and colours.
use super::{Exp, Number, Real, Scalar};
use vstd::prelude::*;

verus! {

/// A point or a displacement of the plane.
#[derive(Clone, Copy, Debug)]
pub struct Vec2<S> {
    pub x: S,
    pub y: S,
}

impl<S: Real> Vec2<S> {
    pub fn new(x: S, y: S) -> (v: Self)
        ensures
            v == (Vec2 { x, y }),
    {
        Vec2 { x, y }
    }

    /// The vector with both components equal to `v`.
    pub fn splat(v: S) -> (r: Self)
        ensures
            r == (Vec2 { x: v, y: v }),
    {
        Vec2 { x: v, y: v }
    }

    pub open spec fn add_spec(self, rhs: Self) -> Self {
        Vec2 { x: self.x.add(rhs.x), y: self.y.add(rhs.y) }
    }

    /// The sum, component by component.
    #[verifier::when_used_as_spec(add_spec)]
    pub fn add(self, rhs: Self) -> (r: Self)
        ensures
            r == self.add_spec(rhs),
    {
        Vec2 { x: self.x.add(rhs.x), y: self.y.add(rhs.y) }
    }

    pub open spec fn sub_spec(self, rhs: Self) -> Self {
        Vec2 { x: self.x.sub(rhs.x), y: self.y.sub(rhs.y) }
    }

    /// The difference, component by component.
    #[verifier::when_used_as_spec(sub_spec)]
    pub fn sub(self, rhs: Self) -> (r: Self)
        ensures
            r == self.sub_spec(rhs),
    {
        Vec2 { x: self.x.sub(rhs.x), y: self.y.sub(rhs.y) }
    }

    pub open spec fn mul_spec(self, rhs: Self) -> Self {
        Vec2 { x: self.x.mul(rhs.x), y: self.y.mul(rhs.y) }
    }

    /// The product, component by component.
    #[verifier::when_used_as_spec(mul_spec)]
    pub fn mul(self, rhs: Self) -> (r: Self)
        ensures
            r == self.mul_spec(rhs),
    {
        Vec2 { x: self.x.mul(rhs.x), y: self.y.mul(rhs.y) }
    }

    pub open spec fn div_spec(self, rhs: Self) -> Self {
        Vec2 { x: self.x.div(rhs.x), y: self.y.div(rhs.y) }
    }

    /// The quotient, component by component.
    #[verifier::when_used_as_spec(div_spec)]
    pub fn div(self, rhs: Self) -> (r: Self)
        ensures
            r == self.div_spec(rhs),
    {
        Vec2 { x: self.x.div(rhs.x), y: self.y.div(rhs.y) }
    }

    pub open spec fn scale_spec(self, k: S) -> Self {
        Vec2 { x: self.x.mul(k), y: self.y.mul(k) }
    }

    /// Both components multiplied by `k`.
    #[verifier::when_used_as_spec(scale_spec)]
    pub fn scale(self, k: S) -> (r: Self)
        ensures
            r == self.scale_spec(k),
    {
        Vec2 { x: self.x.mul(k), y: self.y.mul(k) }
    }

    pub open spec fn unscale_spec(self, k: S) -> Self {
        Vec2 { x: self.x.div(k), y: self.y.div(k) }
    }

    /// Both components divided by `k`.
    #[verifier::when_used_as_spec(unscale_spec)]
    pub fn unscale(self, k: S) -> (r: Self)
        ensures
            r == self.unscale_spec(k),
    {
        Vec2 { x: self.x.div(k), y: self.y.div(k) }
    }

    pub open spec fn abs_spec(self) -> Self {
        Vec2 { x: self.x.abs(), y: self.y.abs() }
    }

    /// The absolute value of each component.
    #[verifier::when_used_as_spec(abs_spec)]
    pub fn abs(self) -> (r: Self)
        ensures
            r == self.abs_spec(),
    {
        Vec2 { x: self.x.abs(), y: self.y.abs() }
    }

    pub open spec fn dot_spec(self, rhs: Self) -> S {
        self.x.mul(rhs.x).add(self.y.mul(rhs.y))
    }

    /// The scalar product `x * rhs.x + y * rhs.y`.
    #[verifier::when_used_as_spec(dot_spec)]
    pub fn dot(self, rhs: Self) -> (r: S)
        ensures
            r == self.dot_spec(rhs),
    {
        self.x.mul(rhs.x).add(self.y.mul(rhs.y))
    }

    pub open spec fn length_squared_spec(self) -> S {
        self.dot(self)
    }

    /// The square of the Euclidean length.
    #[verifier::when_used_as_spec(length_squared_spec)]
    pub fn length_squared(self) -> (r: S)
        ensures
            r == self.length_squared_spec(),
    {
        self.dot(self)
    }

    pub open spec fn length_spec(self) -> S {
        self.length_squared().sqrt()
    }

    /// The Euclidean length.
    #[verifier::when_used_as_spec(length_spec)]
    pub fn length(self) -> (r: S)
        ensures
            r == self.length_spec(),
    {
        self.length_squared().sqrt()
    }
}

impl<S: Scalar> Vec2<S> {
    pub open spec fn to_single_spec(self) -> Vec2<S::Single> {
        Vec2 { x: self.x.to_single(), y: self.y.to_single() }
    }

    /// Narrows both components to single precision.
    #[verifier::when_used_as_spec(to_single_spec)]
    pub fn to_single(self) -> (r: Vec2<S::Single>)
        ensures
            r == self.to_single_spec(),
    {
        Vec2 { x: self.x.to_single(), y: self.y.to_single() }
    }

    pub open spec fn from_single_spec(v: Vec2<S::Single>) -> Self {
        Vec2 { x: S::from_single(v.x), y: S::from_single(v.y) }
    }

    /// Widens both components from single precision.
    #[verifier::when_used_as_spec(from_single_spec)]
    pub fn from_single(v: Vec2<S::Single>) -> (r: Self)
        ensures
            r == Self::from_single_spec(v),
    {
        Vec2 { x: S::from_single(v.x), y: S::from_single(v.y) }
    }
}

/// A pair of unsigned integers: a pixel, or the size of a picture.
#[derive(Clone, Copy, Debug, PartialEq, Eq, Structural)]
pub struct UVec2 {
    pub x: u32,
    pub y: u32,
}

/// A point of the integer lattice.
#[derive(Clone, Copy, Debug, PartialEq, Eq, Hash, Structural)]
pub struct I64Vec2 {
    pub x: i64,
    pub y: i64,
}

/// A colour, with its red, green and blue parts in `x`, `y` and `z`.
#[derive(Clone, Copy, Debug)]
pub struct Vec3<S> {
    pub x: S,
    pub y: S,
    pub z: S,
}

impl<S: Real> Vec3<S> {
    pub fn new(x: S, y: S, z: S) -> (v: Self)
        ensures
            v == (Vec3 { x, y, z }),
    {
        Vec3 { x, y, z }
    }

    /// The vector with all components equal to `v`.
    pub fn splat(v: S) -> (r: Self)
        ensures
            r == (Vec3 { x: v, y: v, z: v }),
    {
        Vec3 { x: v, y: v, z: v }
    }

    pub open spec fn add_spec(self, rhs: Self) -> Self {
        Vec3 { x: self.x.add(rhs.x), y: self.y.add(rhs.y), z: self.z.add(rhs.z) }
    }

    /// The sum, component by component.
    #[verifier::when_used_as_spec(add_spec)]
    pub fn add(self, rhs: Self) -> (r: Self)
        ensures
            r == self.add_spec(rhs),
    {
        Vec3 { x: self.x.add(rhs.x), y: self.y.add(rhs.y), z: self.z.add(rhs.z) }
    }

    pub open spec fn sub_spec(self, rhs: Self) -> Self {
        Vec3 { x: self.x.sub(rhs.x), y: self.y.sub(rhs.y), z: self.z.sub(rhs.z) }
    }

    /// The difference, component by component.
    #[verifier::when_used_as_spec(sub_spec)]
    pub fn sub(self, rhs: Self) -> (r: Self)
        ensures
            r == self.sub_spec(rhs),
    {
        Vec3 { x: self.x.sub(rhs.x), y: self.y.sub(rhs.y), z: self.z.sub(rhs.z) }
    }

    pub open spec fn scale_spec(self, k: S) -> Self {
        Vec3 { x: self.x.mul(k), y: self.y.mul(k), z: self.z.mul(k) }
    }

    /// All components multiplied by `k`.
    #[verifier::when_used_as_spec(scale_spec)]
    pub fn scale(self, k: S) -> (r: Self)
        ensures
            r == self.scale_spec(k),
    {
        Vec3 { x: self.x.mul(k), y: self.y.mul(k), z: self.z.mul(k) }
    }
}

} // verus!

//! What the renderer is told: where the camera is, and where each tile lies.
use crate::math::{Number, Scalar, Vec2};
use vstd::prelude::*;

verus! {

/// Written once per frame: the camera.
#[derive(Copy, Clone)]
pub struct Uniforms<S> {
    pub camera_pos: Vec2<S>,
    pub world_to_view_scale: Vec2<S>,
}

impl<S: Scalar> Default for Uniforms<S> {
    /// The camera at the origin, with a scale of one.
    fn default() -> (r: Self)
        ensures
            r.camera_pos == (Vec2 { x: S::zero(), y: S::zero() }),
            r.world_to_view_scale == (Vec2 { x: S::one(), y: S::one() }),
    {
        Uniforms {
            camera_pos: Vec2::splat(S::zero()),
            world_to_view_scale: Vec2::splat(S::one()),
        }
    }
}

impl<S: Scalar> Uniforms<S> {
    pub open spec fn narrow_spec(self) -> Uniforms<S::Single> {
        Uniforms {
            camera_pos: self.camera_pos.to_single(),
            world_to_view_scale: self.world_to_view_scale.to_single(),
        }
    }

    /// The same uniforms in single precision, field by field.
    #[verifier::when_used_as_spec(narrow_spec)]
    pub fn narrow(self) -> (r: Uniforms<S::Single>)
        ensures
            r == self.narrow_spec(),
    {
        Uniforms {
            camera_pos: self.camera_pos.to_single(),
            world_to_view_scale: self.world_to_view_scale.to_single(),
        }
    }

    pub open spec fn widen_spec(value: Uniforms<S::Single>) -> Self {
        Uniforms {
            camera_pos: Vec2::from_single(value.camera_pos),
            world_to_view_scale: Vec2::from_single(value.world_to_view_scale),
        }
    }

    /// Single-precision uniforms in the precision of `S`, field by field.
    #[verifier::when_used_as_spec(widen_spec)]
    pub fn widen(value: Uniforms<S::Single>) -> (r: Self)
        ensures
            r == Self::widen_spec(value),
    {
        Uniforms {
            camera_pos: Vec2::from_single(value.camera_pos),
            world_to_view_scale: Vec2::from_single(value.world_to_view_scale),
        }
    }

    /// Widening is lossless: uniforms widened and narrowed again are the
    /// uniforms one started with.
    pub proof fn lemma_widen_then_narrow(value: Uniforms<S::Single>)
        ensures
            Self::widen_spec(value).narrow_spec() == value,
    {
        S::widen_is_exact(value.camera_pos.x);
        S::widen_is_exact(value.camera_pos.y);
        S::widen_is_exact(value.world_to_view_scale.x);
        S::widen_is_exact(value.world_to_view_scale.y);
    }
}

/// Written once per tile: the corner and the size of the tile in the plane.
#[derive(Copy, Clone)]
pub struct Instance<S> {
    pub pos: Vec2<S>,
    pub size: Vec2<S>,
}

impl<S: Scalar> Default for Instance<S> {
    /// The unit square at the origin.
    fn default() -> (r: Self)
        ensures
            r.pos == (Vec2 { x: S::zero(), y: S::zero() }),
            r.size == (Vec2 { x: S::one(), y: S::one() }),
    {
        Instance { pos: Vec2::splat(S::zero()), size: Vec2::splat(S::one()) }
    }
}

impl<S: Scalar> Instance<S> {
    pub open spec fn narrow_spec(self) -> Instance<S::Single> {
        Instance { pos: self.pos.to_single(), size: self.size.to_single() }
    }

    /// The same instance in single precision, field by field.
    #[verifier::when_used_as_spec(narrow_spec)]
    pub fn narrow(self) -> (r: Instance<S::Single>)
        ensures
            r == self.narrow_spec(),
    {
        Instance { pos: self.pos.to_single(), size: self.size.to_single() }
    }

    pub open spec fn widen_spec(value: Instance<S::Single>) -> Self {
        Instance { pos: Vec2::from_single(value.pos), size: Vec2::from_single(value.size) }
    }

    /// A single-precision instance in the precision of `S`, field by field.
    #[verifier::when_used_as_spec(widen_spec)]
    pub fn widen(value: Instance<S::Single>) -> (r: Self)
        ensures
            r == Self::widen_spec(value),
    {
        Instance { pos: Vec2::from_single(value.pos), size: Vec2::from_single(value.size) }
    }

    /// Widening is lossless: an instance widened and narrowed again is the
    /// instance one started with.
    pub proof fn lemma_widen_then_narrow(value: Instance<S::Single>)
        ensures
            Self::widen_spec(value).narrow_spec() == value,
    {
        S::widen_is_exact(value.pos.x);
        S::widen_is_exact(value.pos.y);
        S::widen_is_exact(value.size.x);
        S::widen_is_exact(value.size.y);
    }
}

} // verus!

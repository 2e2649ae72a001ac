//! The transfer functions between linear light and sRGB.
use crate::math::{Exp, Number, Real, Vec3};
use vstd::prelude::*;

verus! {

/// One part of a colour, from linear light to sRGB: `12.92 * c` up to
/// `0.0031308`, and `1.055 * c^(1 / 2.4) - 0.055` above.
pub open spec fn component_linear_to_srgb_spec<V: Real>(linear_component: V) -> V {
    if linear_component.le(V::from_decimal(31308, -7i32)) {
        linear_component.mul(V::from_decimal(1292, -2i32))
    } else {
        V::from_decimal(1055, -3i32).mul(
            linear_component.pow(V::one().div(V::from_decimal(24, -1i32))),
        ).sub(V::from_decimal(55, -3i32))
    }
}

#[verifier::when_used_as_spec(component_linear_to_srgb_spec)]
pub fn component_linear_to_srgb<V: Real>(linear_component: V) -> (r: V)
    ensures
        r == component_linear_to_srgb_spec(linear_component),
{
    if linear_component.le(V::from_decimal(31308, -7)) {
        linear_component.mul(V::from_decimal(1292, -2))
    } else {
        V::from_decimal(1055, -3).mul(
            linear_component.pow(V::one().div(V::from_decimal(24, -1))),
        ).sub(V::from_decimal(55, -3))
    }
}

/// A colour from linear light to sRGB, part by part.
pub fn linear_to_srgb<V: Real>(value: Vec3<V>) -> (r: Vec3<V>)
    ensures
        r == (Vec3 {
            x: component_linear_to_srgb(value.x),
            y: component_linear_to_srgb(value.y),
            z: component_linear_to_srgb(value.z),
        }),
{
    Vec3::new(
        component_linear_to_srgb(value.x),
        component_linear_to_srgb(value.y),
        component_linear_to_srgb(value.z),
    )
}

/// One part of a colour, from sRGB to linear light: `c / 12.92` up to
/// `0.04045`, and `((c + 0.055) / 1.055)^2.4` above.
pub open spec fn component_srgb_to_linear_spec<V: Real>(srgb_component: V) -> V {
    if srgb_component.le(V::from_decimal(4045, -5i32)) {
        srgb_component.div(V::from_decimal(1292, -2i32))
    } else {
        srgb_component.add(V::from_decimal(55, -3i32)).div(V::from_decimal(1055, -3i32)).pow(
            V::from_decimal(24, -1i32),
        )
    }
}

#[verifier::when_used_as_spec(component_srgb_to_linear_spec)]
pub fn component_srgb_to_linear<V: Real>(srgb_component: V) -> (r: V)
    ensures
        r == component_srgb_to_linear_spec(srgb_component),
{
    if srgb_component.le(V::from_decimal(4045, -5)) {
        srgb_component.div(V::from_decimal(1292, -2))
    } else {
        srgb_component.add(V::from_decimal(55, -3)).div(V::from_decimal(1055, -3)).pow(
            V::from_decimal(24, -1),
        )
    }
}

/// A colour from sRGB to linear light, part by part.
pub fn srgb_to_linear<V: Real>(value: Vec3<V>) -> (r: Vec3<V>)
    ensures
        r == (Vec3 {
            x: component_srgb_to_linear(value.x),
            y: component_srgb_to_linear(value.y),
            z: component_srgb_to_linear(value.z),
        }),
{
    Vec3::new(
        component_srgb_to_linear(value.x),
        component_srgb_to_linear(value.y),
        component_srgb_to_linear(value.z),
    )
}

} // verus!

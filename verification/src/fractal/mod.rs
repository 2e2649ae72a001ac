//! The catalogue of fractal families and the parameters of a rendering.
use self::escape_time_method::{escape_time_fractal, orbit_seed, EscapeResult};
use crate::math::{to_u32, to_u32_spec, Complex, Exp, Number, Real, Scalar, Vec3};
use vstd::prelude::*;

pub mod burning_ship;
pub mod cos_leaf;
pub mod escape_time_method;
pub mod lyapunov;
pub mod mandelbrot;
pub mod multibrot;
pub mod newton;
pub mod tricorn;

verus! {

/// The fractal families.
#[derive(Debug, Copy, Clone, PartialEq, Eq, Structural)]
pub enum FractalKind {
    MandelbrotSet,
    Multibrot3,
    Tricorn,
    BurningShip,
    CosLeaf,
    Newton3,
    Lyapunov,
}

impl FractalKind {
    pub open spec fn default_iteration_limit_spec(&self) -> u32 {
        match self {
            FractalKind::Newton3 => 128,
            _ => 1024,
        }
    }

    /// The iteration limit a family starts with: 128 for Newton's method,
    /// 1024 for every other family.
    #[verifier::when_used_as_spec(default_iteration_limit_spec)]
    pub fn default_iteration_limit(&self) -> (limit: u32)
        ensures
            limit == self.default_iteration_limit_spec(),
    {
        match self {
            FractalKind::MandelbrotSet => 1024,
            FractalKind::Multibrot3 => 1024,
            FractalKind::Tricorn => 1024,
            FractalKind::BurningShip => 1024,
            FractalKind::CosLeaf => 1024,
            FractalKind::Newton3 => 128,
            FractalKind::Lyapunov => 1024,
        }
    }
}

/// Which of the two points of a rendering varies over the picture.
#[derive(Debug, Copy, Clone, PartialEq, Eq, Structural)]
pub enum FractalVariation {
    /// The orbit starts at zero and the point of the picture is the constant.
    Normal,
    /// The orbit starts at the point of the picture and the constant is fixed.
    JuliaSet,
}

/// How an orbit becomes a value to colour.
#[derive(Debug, Copy, Clone, PartialEq, Eq, Structural)]
pub enum RenderTechnique {
    Normal,
    OrbitTrapPoint,
    OrbitTrapCross,
    NormalMap,
}

/// The built-in cyclic palettes.
#[derive(Debug, Copy, Clone, PartialEq, Eq, Structural)]
pub enum ColorPalette {
    Default,
    Flames,
    Temperature,
}

/// Everything that decides the colour of a point of the plane.
#[derive(Copy, Clone)]
pub struct FractalParams<S: Scalar> {
    /// The point that does not vary over the picture: the constant of a
    /// Julia set.
    pub secondary_pos: Complex<S>,
    pub fractal_kind: FractalKind,
    pub variation: FractalVariation,
    pub render_technique: RenderTechnique,
    pub iteration_limit: u32,
    pub color_palette: ColorPalette,
    pub color_frequency: S::Single,
}

impl<S: Scalar> FractalParams<S> {
    pub open spec fn default_spec() -> Self {
        FractalParams {
            secondary_pos: Complex::zero(),
            fractal_kind: FractalKind::MandelbrotSet,
            variation: FractalVariation::Normal,
            render_technique: RenderTechnique::Normal,
            iteration_limit: FractalKind::MandelbrotSet.default_iteration_limit(),
            color_palette: ColorPalette::Default,
            color_frequency: S::Single::one(),
        }
    }
}

impl<S: Scalar> FractalParams<S> where S::Single: Scalar<Single = S::Single> {
    pub open spec fn narrow_spec(self) -> FractalParams<S::Single> {
        FractalParams {
            secondary_pos: self.secondary_pos.to_single(),
            fractal_kind: self.fractal_kind,
            variation: self.variation,
            render_technique: self.render_technique,
            iteration_limit: self.iteration_limit,
            color_palette: self.color_palette,
            color_frequency: self.color_frequency,
        }
    }

    /// The same parameters in single precision: the secondary position is
    /// rounded, every other field is kept.
    #[verifier::when_used_as_spec(narrow_spec)]
    pub fn narrow(self) -> (r: FractalParams<S::Single>)
        ensures
            r == self.narrow_spec(),
    {
        FractalParams {
            secondary_pos: self.secondary_pos.to_single(),
            fractal_kind: self.fractal_kind,
            variation: self.variation,
            render_technique: self.render_technique,
            iteration_limit: self.iteration_limit,
            color_palette: self.color_palette,
            color_frequency: self.color_frequency,
        }
    }

    pub open spec fn widen_spec(value: FractalParams<S::Single>) -> Self {
        FractalParams {
            secondary_pos: Complex::from_single(value.secondary_pos),
            fractal_kind: value.fractal_kind,
            variation: value.variation,
            render_technique: value.render_technique,
            iteration_limit: value.iteration_limit,
            color_palette: value.color_palette,
            color_frequency: value.color_frequency,
        }
    }

    /// Single-precision parameters in the precision of `S`: the secondary
    /// position is widened, every other field is kept.
    #[verifier::when_used_as_spec(widen_spec)]
    pub fn widen(value: FractalParams<S::Single>) -> (r: Self)
        ensures
            r == Self::widen_spec(value),
    {
        FractalParams {
            secondary_pos: Complex::from_single(value.secondary_pos),
            fractal_kind: value.fractal_kind,
            variation: value.variation,
            render_technique: value.render_technique,
            iteration_limit: value.iteration_limit,
            color_palette: value.color_palette,
            color_frequency: value.color_frequency,
        }
    }

    /// Widening is lossless: parameters widened and narrowed again are the
    /// parameters one started with.
    pub proof fn lemma_widen_then_narrow(value: FractalParams<S::Single>)
        ensures
            Self::widen_spec(value).narrow_spec() == value,
    {
        Complex::<S>::widen_is_exact(value.secondary_pos);
    }
}

impl<S: Scalar> Default for FractalParams<S> {
    /// The Mandelbrot set in the default palette, with its own iteration
    /// limit and a colour frequency of one.
    fn default() -> (r: Self)
        ensures
            r == Self::default_spec(),
    {
        FractalParams {
            secondary_pos: Complex::zero(),
            fractal_kind: FractalKind::MandelbrotSet,
            variation: FractalVariation::Normal,
            render_technique: RenderTechnique::Normal,
            iteration_limit: FractalKind::MandelbrotSet.default_iteration_limit(),
            color_palette: ColorPalette::Default,
            color_frequency: S::Single::one(),
        }
    }
}

/// A colour part given in halves: zero, one half or one.
pub open spec fn level_spec<V: Real>(halves: u8) -> V {
    if halves == 0 {
        V::zero()
    } else if halves == 1 {
        V::from_decimal(5, -1i32)
    } else {
        V::one()
    }
}

/// A colour part given in halves: zero, one half or, for any other
/// number, one.
#[verifier::when_used_as_spec(level_spec)]
pub fn level<V: Real>(halves: u8) -> (r: V)
    ensures
        r == level_spec::<V>(halves),
{
    if halves == 0 {
        V::zero()
    } else if halves == 1 {
        V::from_decimal(5, -1)
    } else {
        V::one()
    }
}

/// The colour with the given parts, in halves.
pub open spec fn rgb_spec<V: Real>(r: u8, g: u8, b: u8) -> Vec3<V> {
    Vec3 { x: level(r), y: level(g), z: level(b) }
}

/// The colour with the given parts, in halves.
#[verifier::when_used_as_spec(rgb_spec)]
pub fn rgb<V: Real>(r: u8, g: u8, b: u8) -> (c: Vec3<V>)
    ensures
        c == rgb_spec::<V>(r, g, b),
{
    Vec3::new(level(r), level(g), level(b))
}

impl ColorPalette {
    /// The six control colours of the palette, in their cyclic order.
    ///
    /// Default: orange, purple, blue, cyan, white, yellow. Flames: yellow,
    /// red, black, red, yellow, white. Temperature: cyan, purple, black,
    /// red, yellow, white.
    pub open spec fn colors_spec<V: Real>(&self) -> Seq<Vec3<V>> {
        match self {
            ColorPalette::Default => seq![
                rgb(2, 1, 0),
                rgb(1, 0, 2),
                rgb(0, 0, 2),
                rgb(0, 2, 2),
                rgb(2, 2, 2),
                rgb(2, 2, 0),
            ],
            ColorPalette::Flames => seq![
                rgb(2, 2, 0),
                rgb(2, 0, 0),
                rgb(0, 0, 0),
                rgb(2, 0, 0),
                rgb(2, 2, 0),
                rgb(2, 2, 2),
            ],
            ColorPalette::Temperature => seq![
                rgb(0, 2, 2),
                rgb(1, 0, 2),
                rgb(0, 0, 0),
                rgb(2, 0, 0),
                rgb(2, 2, 0),
                rgb(2, 2, 2),
            ],
        }
    }

    /// The six control colours of the palette, in their cyclic order.
    pub fn colors<V: Real>(&self) -> (c: [Vec3<V>; 6])
        ensures
            c@ == self.colors_spec::<V>(),
    {
        let c = match self {
            ColorPalette::Default => [
                rgb(2, 1, 0),
                rgb(1, 0, 2),
                rgb(0, 0, 2),
                rgb(0, 2, 2),
                rgb(2, 2, 2),
                rgb(2, 2, 0),
            ],
            ColorPalette::Flames => [
                rgb(2, 2, 0),
                rgb(2, 0, 0),
                rgb(0, 0, 0),
                rgb(2, 0, 0),
                rgb(2, 2, 0),
                rgb(2, 2, 2),
            ],
            ColorPalette::Temperature => [
                rgb(0, 2, 2),
                rgb(1, 0, 2),
                rgb(0, 0, 0),
                rgb(2, 0, 0),
                rgb(2, 2, 0),
                rgb(2, 2, 2),
            ],
        };
        assert(c@ =~= self.colors_spec::<V>());
        c
    }
}

/// The position of `v` on a cyclic palette of `n` colours: its remainder by
/// `n` that is not negative.
pub open spec fn palette_position<V: Real>(v: V, n: nat) -> V {
    v.rem_euclid(V::from_int(n as i64))
}

/// The control colour that the position `w` falls on or after: the integer
/// part of `w`, wrapped to the palette.
pub open spec fn palette_index<V: Real>(w: V, n: nat) -> int {
    (to_u32_spec(w.floor()) as int) % (n as int)
}

/// The colour of the position `w`: between the control colour it falls on
/// and the next one round the cycle, blended by `t * t * (3 - 2 * t)`,
/// with `t` the fractional part of `w`.
pub open spec fn palette_color<V: Real>(w: V, palette: Seq<Vec3<V>>) -> Vec3<V> {
    let n = palette.len();
    let i = palette_index(w, n);
    let t = w.rem(V::one());
    let t = t.mul(t).mul(V::from_decimal(3, 0).sub(V::from_decimal(2, 0).mul(t)));
    let c1 = palette[i];
    let c2 = palette[(i + 1) % (n as int)];
    c1.add(c2.sub(c1).scale(t))
}

/// The colour of the value `v` on a cyclic palette.
pub open spec fn sample_palette_spec<V: Real>(v: V, palette: Seq<Vec3<V>>) -> Vec3<V> {
    palette_color(palette_position(v, palette.len()), palette)
}

/// Samples a cyclic palette at `v`. The palette must not be empty.
pub fn sample_palette<V: Real, const N: usize>(v: V, palette: &[Vec3<V>; N]) -> (c: Vec3<V>)
    requires
        0 < N <= i64::MAX,
    ensures
        c == sample_palette_spec(v, palette@),
{
    let w = v.rem_euclid(V::from_int(N as i64));
    let i = (to_u32(w.floor()) as usize) % N;
    let t = w.rem(V::one());
    let t = t.mul(t).mul(V::from_decimal(3, 0).sub(V::from_decimal(2, 0).mul(t)));
    let c1 = palette[i];
    let c2 = palette[(i + 1) % N];
    c1.add(c2.sub(c1).scale(t))
}

/// A palette is cyclic: two values with the same position on it have the
/// same colour. In particular `v` and `v` plus the length of the palette
/// do, wherever the arithmetic of `V` gives both the same remainder.
pub proof fn lemma_palette_is_cyclic<V: Real>(v: V, palette: Seq<Vec3<V>>)
    requires
        palette_position(v.add(V::from_int(palette.len() as i64)), palette.len())
            == palette_position(v, palette.len()),
    ensures
        sample_palette_spec(v.add(V::from_int(palette.len() as i64)), palette)
            == sample_palette_spec(v, palette),
{
}

/// The colour part that the Lyapunov exponent `v` gives to red: nothing for
/// a chaotic point, `sqrt(exp(v))` for a stable one.
pub open spec fn lyapunov_level<V: Real>(v: V) -> V {
    if V::zero().le(v) {
        V::zero()
    } else {
        v.exp().sqrt()
    }
}

/// The colour of the Lyapunov exponent `v`. With `y` the level above: red
/// is `y`, green is `1 - (1 - y)^0.55`, and blue is `1 - exp(-v)^3` for a
/// positive exponent and nothing otherwise.
pub open spec fn lyapunov_color<V: Real>(v: V) -> Vec3<V> {
    let y = lyapunov_level(v);
    Vec3 {
        x: y,
        y: V::one().sub(V::one().sub(y).pow(V::from_decimal(55, -2i32))),
        z: if v.le(V::zero()) {
            V::zero()
        } else {
            V::one().sub(v.neg().exp().pow(V::from_decimal(3, 0)))
        },
    }
}

/// The colour of an escape value: black inside; for the normal map the
/// grey `v * 0.9 + 0.1`; else the palette sampled at `ln(v)` times the
/// colour frequency.
pub open spec fn escape_color<S: Scalar>(
    res: EscapeResult<S::Single>,
    params: FractalParams<S>,
) -> Vec3<S::Single> {
    match res {
        EscapeResult::StayedInside => Vec3 {
            x: S::Single::zero(),
            y: S::Single::zero(),
            z: S::Single::zero(),
        },
        EscapeResult::Escaped(v) => {
            if params.render_technique == RenderTechnique::NormalMap {
                let g = v.mul(S::Single::from_decimal(9, -1i32)).add(
                    S::Single::from_decimal(1, -1i32),
                );
                Vec3 { x: g, y: g, z: g }
            } else {
                sample_palette_spec(
                    v.ln().mul(params.color_frequency),
                    params.color_palette.colors_spec::<S::Single>(),
                )
            }
        },
    }
}

/// The escape value of `pos` under the family of `params`, for the five
/// escape-time families. For the other two it is not defined and stands at
/// inside.
pub open spec fn escape_value<S: Scalar>(
    pos: Complex<S>,
    params: FractalParams<S>,
) -> EscapeResult<S::Single> {
    let z = orbit_seed(pos, params).0;
    let c = orbit_seed(pos, params).1;
    let two = Some(S::Single::from_decimal(2, 0));
    let far = S::Single::from_decimal(1, 8);
    match params.fractal_kind {
        FractalKind::MandelbrotSet => mandelbrot::mandelbrot_value_spec(pos, params),
        FractalKind::Multibrot3 => escape_time_fractal(
            multibrot::step(c),
            z,
            params,
            S::Single::from_decimal(1, 6),
            Some(S::Single::from_decimal(3, 0)),
        ),
        FractalKind::Tricorn => escape_time_fractal(tricorn::step(c), z, params, far, two),
        FractalKind::BurningShip => escape_time_fractal(
            burning_ship::step(c),
            z,
            params,
            far,
            two,
        ),
        FractalKind::CosLeaf => escape_time_fractal(
            cos_leaf::step(c),
            z,
            params,
            S::Single::from_decimal(100, 0),
            None,
        ),
        FractalKind::Newton3 => EscapeResult::StayedInside,
        FractalKind::Lyapunov => EscapeResult::StayedInside,
    }
}

/// The colour of the point `pos` of the plane.
pub open spec fn fractal_color<S: Scalar>(pos: Complex<S>, params: FractalParams<S>) -> Vec3<
    S::Single,
> {
    match params.fractal_kind {
        FractalKind::Newton3 => newton::blend(
            newton::cube_roots_of_unity::<S>(),
            newton::root_palette::<S::Single>(),
            newton::newton_limit(
                newton::cubic::<S>(),
                Complex::one(),
                newton::newton_seed(pos, params).1,
                newton::newton_seed(pos, params).0,
                newton::ITERATION_COUNT,
            ),
            3,
        ),
        FractalKind::Lyapunov => lyapunov_color(
            lyapunov::lyapunov_spec(seq![false, true], pos.to_vector(), params.iteration_limit),
        ),
        _ => escape_color(escape_value(pos, params), params),
    }
}

/// Computes the colour of the point `pos` of the plane: the family of
/// `params` gives the value, the render technique and the palette turn it
/// into a colour.
pub fn compute_fractal_color<S: Scalar>(pos: Complex<S>, params: FractalParams<S>) -> (color: Vec3<
    S::Single,
>)
    ensures
        color == fractal_color(pos, params),
{
    let res = match params.fractal_kind {
        FractalKind::MandelbrotSet => mandelbrot::mandelbrot_value(pos, params),
        FractalKind::Multibrot3 => multibrot::multibrot3(pos, params),
        FractalKind::Tricorn => tricorn::tricorn(pos, params),
        FractalKind::BurningShip => burning_ship::burning_ship(pos, params),
        FractalKind::CosLeaf => cos_leaf::cos_leaf(pos, params),
        FractalKind::Newton3 => {
            return newton::newton3(pos, params);
        },
        FractalKind::Lyapunov => {
            let sequence = [false, true];
            assert(sequence@ =~= seq![false, true]);
            let v = lyapunov::lyapunov::<S, 2>(&sequence, pos.to_vector(), params.iteration_limit);
            let zero = S::Single::zero();
            let one = S::Single::one();
            let y = if zero.le(v) {
                zero
            } else {
                v.exp().sqrt()
            };
            let r = y;
            let g = one.sub(one.sub(y).pow(S::Single::from_decimal(55, -2)));
            let b = if v.le(zero) {
                zero
            } else {
                one.sub(v.neg().exp().pow(S::Single::from_decimal(3, 0)))
            };
            return Vec3::new(r, g, b);
        },
    };
    match res {
        EscapeResult::StayedInside => Vec3::new(
            S::Single::zero(),
            S::Single::zero(),
            S::Single::zero(),
        ),
        EscapeResult::Escaped(v) => {
            if params.render_technique == RenderTechnique::NormalMap {
                let g = v.mul(S::Single::from_decimal(9, -1)).add(S::Single::from_decimal(1, -1));
                Vec3::splat(g)
            } else {
                let v = v.ln();
                let v = v.mul(params.color_frequency);
                let palette = params.color_palette.colors::<S::Single>();
                sample_palette(v, &palette)
            }
        },
    }
}

} // verus!
